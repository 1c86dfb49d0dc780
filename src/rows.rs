//! The mapping between a `Book` and a row of the `books` table.
use vstd::prelude::*;
use vstd::utf8::{decode_utf8, encode_utf8, valid_utf8};
use crate::book::{text_of, Book};
use crate::codec::{join_entries, join_spec, split_entries, split_spec, texts};
use crate::store::{utf8_text, SqlParam, StoredValue};

verus! {

/// The columns a listing reads, in this order.
pub const ROW_WIDTH: usize = 9;

/// Why a row could not be turned into a record, or the reverse.
#[derive(Debug, Clone, Copy, PartialEq, Eq)]
pub enum StoreError {
    /// No location for the store could be found or made.
    Location,
    /// The store could not be opened.
    Open,
    /// A table could not be created.
    Schema,
    /// A read query failed: the store is unreadable.
    Query,
    /// A row held a value its column cannot hold.
    Decode,
    /// A write failed.
    Write,
}

pub open spec fn is_text(c: StoredValue) -> bool {
    c matches StoredValue::Text(b) && valid_utf8(b@)
}

pub open spec fn text_cell(c: StoredValue, s: Seq<char>) -> bool {
    c matches StoredValue::Text(b) && valid_utf8(b@) && decode_utf8(b@) == s
}

pub open spec fn opt_text_cell(c: StoredValue, o: Option<Seq<char>>) -> bool {
    match o {
        Option::None => c is Null,
        Option::Some(s) => text_cell(c, s),
    }
}

pub open spec fn int_within(c: StoredValue, hi: int) -> bool {
    c matches StoredValue::Integer(n) && 0 <= n <= hi
}

pub open spec fn opt_int_cell(c: StoredValue, o: Option<int>) -> bool {
    match o {
        Option::None => c is Null,
        Option::Some(n) => c matches StoredValue::Integer(x) && x == n,
    }
}

pub open spec fn opt_u16(o: Option<u16>) -> Option<int> {
    match o {
        Option::None => Option::None,
        Option::Some(n) => Option::Some(n as int),
    }
}

pub open spec fn opt_u32(o: Option<u32>) -> Option<int> {
    match o {
        Option::None => Option::None,
        Option::Some(n) => Option::Some(n as int),
    }
}

/// The secondary authors kept in `c`: none where the column is NULL, else
/// the text cut at every `;`.
pub open spec fn authors_cell(c: StoredValue, o: Option<Vec<String>>) -> bool {
    match o {
        Option::None => c is Null,
        Option::Some(v) => c matches StoredValue::Text(b) && valid_utf8(b@) && texts(v@)
            == split_spec(decode_utf8(b@)),
    }
}

/// Whether a row read as id, title, author, bookid, idtype,
/// secondary_authors, publication_year, publisher, copies can be a record:
/// the id, title and copy count present (the schema holds copies NOT NULL),
/// every value of its column's kind, and every number within its field's
/// range.
pub open spec fn row_decodes(cells: Seq<StoredValue>) -> bool {
    &&& cells.len() == ROW_WIDTH
    &&& int_within(cells[0], u32::MAX as int)
    &&& is_text(cells[1])
    &&& (cells[2] is Null || is_text(cells[2]))
    &&& (cells[3] is Null || is_text(cells[3]))
    &&& (cells[4] is Null || is_text(cells[4]))
    &&& (cells[5] is Null || is_text(cells[5]))
    &&& (cells[6] is Null || int_within(cells[6], u16::MAX as int))
    &&& (cells[7] is Null || is_text(cells[7]))
    &&& int_within(cells[8], u32::MAX as int)
}

/// `b` is the record that the row `cells` holds. The cover is not read.
pub open spec fn row_matches(b: Book, cells: Seq<StoredValue>) -> bool {
    &&& cells.len() == ROW_WIDTH
    &&& cells[0] matches StoredValue::Integer(n) && n == b.id
    &&& text_cell(cells[1], b.title@)
    &&& opt_text_cell(cells[2], text_of(b.author))
    &&& opt_text_cell(cells[3], text_of(b.bookid))
    &&& opt_text_cell(cells[4], text_of(b.idtype))
    &&& authors_cell(cells[5], b.secondary_authors)
    &&& opt_int_cell(cells[6], opt_u16(b.publication_year))
    &&& opt_text_cell(cells[7], text_of(b.publisher))
    &&& opt_int_cell(cells[8], opt_u32(b.copies))
    &&& b.cover is None
}

fn read_text(c: &StoredValue) -> (r: Result<String, StoreError>)
    ensures
        r is Ok <==> is_text(*c),
        r matches Ok(s) ==> text_cell(*c, s@),
        r matches Err(e) ==> e == StoreError::Decode,
{
    match c {
        StoredValue::Text(b) => match utf8_text(b.as_slice()) {
            Some(s) => Ok(s),
            None => Err(StoreError::Decode),
        },
        _ => Err(StoreError::Decode),
    }
}

fn read_opt_text(c: &StoredValue) -> (r: Result<Option<String>, StoreError>)
    ensures
        r is Ok <==> (c is Null || is_text(*c)),
        r matches Ok(o) ==> opt_text_cell(*c, text_of(o)),
        r matches Err(e) ==> e == StoreError::Decode,
{
    match c {
        StoredValue::Null => Ok(None),
        _ => match read_text(c) {
            Ok(s) => Ok(Some(s)),
            Err(e) => Err(e),
        },
    }
}

fn read_authors(c: &StoredValue) -> (r: Result<Option<Vec<String>>, StoreError>)
    ensures
        r is Ok <==> (c is Null || is_text(*c)),
        r matches Ok(o) ==> authors_cell(*c, o),
        r matches Err(e) ==> e == StoreError::Decode,
{
    match c {
        StoredValue::Null => Ok(None),
        _ => match read_text(c) {
            Ok(s) => Ok(Some(split_entries(s.as_str()))),
            Err(e) => Err(e),
        },
    }
}

fn read_u32(c: &StoredValue) -> (r: Result<u32, StoreError>)
    ensures
        r is Ok <==> int_within(*c, u32::MAX as int),
        r matches Ok(n) ==> opt_int_cell(*c, Some(n as int)),
        r matches Err(e) ==> e == StoreError::Decode,
{
    match c {
        StoredValue::Integer(n) => {
            if 0 <= *n && *n <= u32::MAX as i64 {
                Ok(*n as u32)
            } else {
                Err(StoreError::Decode)
            }
        },
        _ => Err(StoreError::Decode),
    }
}

fn read_opt_u16(c: &StoredValue) -> (r: Result<Option<u16>, StoreError>)
    ensures
        r is Ok <==> (c is Null || int_within(*c, u16::MAX as int)),
        r matches Ok(o) ==> opt_int_cell(*c, opt_u16(o)),
        r matches Err(e) ==> e == StoreError::Decode,
{
    match c {
        StoredValue::Null => Ok(None),
        StoredValue::Integer(n) => {
            if 0 <= *n && *n <= u16::MAX as i64 {
                Ok(Some(*n as u16))
            } else {
                Err(StoreError::Decode)
            }
        },
        _ => Err(StoreError::Decode),
    }
}

/// The record that one row holds. A row whose values do not fit their
/// fields is refused, never skipped or patched.
pub fn decode_row(cells: &Vec<StoredValue>) -> (r: Result<Book, StoreError>)
    ensures
        r is Ok <==> row_decodes(cells@),
        r matches Ok(b) ==> row_matches(b, cells@) && b.copies is Some,
        r matches Err(e) ==> e == StoreError::Decode,
{
    if cells.len() != ROW_WIDTH {
        return Err(StoreError::Decode);
    }
    let id = match read_u32(&cells[0]) {
        Ok(v) => v,
        Err(e) => return Err(e),
    };
    let title = match read_text(&cells[1]) {
        Ok(v) => v,
        Err(e) => return Err(e),
    };
    let author = match read_opt_text(&cells[2]) {
        Ok(v) => v,
        Err(e) => return Err(e),
    };
    let bookid = match read_opt_text(&cells[3]) {
        Ok(v) => v,
        Err(e) => return Err(e),
    };
    let idtype = match read_opt_text(&cells[4]) {
        Ok(v) => v,
        Err(e) => return Err(e),
    };
    let secondary_authors = match read_authors(&cells[5]) {
        Ok(v) => v,
        Err(e) => return Err(e),
    };
    let publication_year = match read_opt_u16(&cells[6]) {
        Ok(v) => v,
        Err(e) => return Err(e),
    };
    let publisher = match read_opt_text(&cells[7]) {
        Ok(v) => v,
        Err(e) => return Err(e),
    };
    let copies = match read_u32(&cells[8]) {
        Ok(v) => Some(v),
        Err(e) => return Err(e),
    };
    Ok(
        Book {
            id,
            title,
            author,
            bookid,
            idtype,
            secondary_authors,
            publication_year,
            publisher,
            cover: None,
            copies,
        },
    )
}

/// The columns an insert writes, in this order.
pub const INSERT_WIDTH: usize = 9;

/// The copy count a record is stored with: its own, or 1 where it has none.
pub open spec fn stored_copies(o: Option<u32>) -> int {
    match o {
        Option::None => 1,
        Option::Some(n) => n as int,
    }
}

pub open spec fn param_text(p: SqlParam, s: Seq<char>) -> bool {
    p matches SqlParam::Text(t) && t@ == s
}

pub open spec fn param_opt_text(p: SqlParam, o: Option<Seq<char>>) -> bool {
    match o {
        Option::None => p is Null,
        Option::Some(s) => param_text(p, s),
    }
}

pub open spec fn param_opt_int(p: SqlParam, o: Option<int>) -> bool {
    match o {
        Option::None => p is Null,
        Option::Some(n) => p matches SqlParam::Integer(x) && x == n,
    }
}

/// The secondary authors are written as one text, joined with `;`.
pub open spec fn param_authors(p: SqlParam, o: Option<Vec<String>>) -> bool {
    match o {
        Option::None => p is Null,
        Option::Some(v) => param_text(p, join_spec(texts(v@))),
    }
}

pub open spec fn param_cover(p: SqlParam, o: Option<Vec<u8>>) -> bool {
    match o {
        Option::None => p is Null,
        Option::Some(c) => p matches SqlParam::Blob(x) && x@ == c@,
    }
}

/// `ps` are the values an insert of `b` binds to title, author, bookid,
/// idtype, secondary_authors, publication_year, publisher, cover, copies.
pub open spec fn params_match(b: Book, ps: Seq<SqlParam>) -> bool {
    &&& ps.len() == INSERT_WIDTH
    &&& param_text(ps[0], b.title@)
    &&& param_opt_text(ps[1], text_of(b.author))
    &&& param_opt_text(ps[2], text_of(b.bookid))
    &&& param_opt_text(ps[3], text_of(b.idtype))
    &&& param_authors(ps[4], b.secondary_authors)
    &&& param_opt_int(ps[5], opt_u16(b.publication_year))
    &&& param_opt_text(ps[6], text_of(b.publisher))
    &&& param_cover(ps[7], b.cover)
    &&& param_opt_int(ps[8], Some(stored_copies(b.copies)))
}

fn text_param(s: Option<String>) -> (r: SqlParam)
    ensures
        param_opt_text(r, text_of(s)),
{
    match s {
        Some(t) => SqlParam::Text(t),
        None => SqlParam::Null,
    }
}

/// The values an insert of `book` binds; the id is left to the store.
pub fn encode_book(book: Book) -> (r: Vec<SqlParam>)
    ensures
        params_match(book, r@),
{
    let ghost b = book;
    let mut ps: Vec<SqlParam> = Vec::new();
    ps.push(SqlParam::Text(book.title));
    ps.push(text_param(book.author));
    ps.push(text_param(book.bookid));
    ps.push(text_param(book.idtype));
    ps.push(
        match book.secondary_authors {
            Some(v) => SqlParam::Text(join_entries(&v)),
            None => SqlParam::Null,
        },
    );
    ps.push(
        match book.publication_year {
            Some(y) => SqlParam::Integer(y as i64),
            None => SqlParam::Null,
        },
    );
    ps.push(text_param(book.publisher));
    ps.push(
        match book.cover {
            Some(c) => SqlParam::Blob(c),
            None => SqlParam::Null,
        },
    );
    ps.push(
        match book.copies {
            Some(n) => SqlParam::Integer(n as i64),
            None => SqlParam::Integer(1),
        },
    );
    assert(params_match(b, ps@));
    ps
}

/// How the store keeps a bound value: text as its UTF-8 bytes, every other
/// value as it is.
pub open spec fn stored_as(p: SqlParam, c: StoredValue) -> bool {
    match p {
        SqlParam::Null => c is Null,
        SqlParam::Integer(n) => c matches StoredValue::Integer(m) && m == n,
        SqlParam::Text(s) => c matches StoredValue::Text(b) && b@ == encode_utf8(s@),
        SqlParam::Blob(x) => c matches StoredValue::Blob(y) && y@ == x@,
    }
}

/// `cells` is the row a listing reads back after an insert that bound `ps`
/// and was given the id `id`.
pub open spec fn stored_row(ps: Seq<SqlParam>, id: int, cells: Seq<StoredValue>) -> bool {
    &&& ps.len() == INSERT_WIDTH
    &&& cells.len() == ROW_WIDTH
    &&& cells[0] matches StoredValue::Integer(n) && n == id
    &&& stored_as(ps[0], cells[1])
    &&& stored_as(ps[1], cells[2])
    &&& stored_as(ps[2], cells[3])
    &&& stored_as(ps[3], cells[4])
    &&& stored_as(ps[4], cells[5])
    &&& stored_as(ps[5], cells[6])
    &&& stored_as(ps[6], cells[7])
    &&& stored_as(ps[8], cells[8])
}

/// A list of secondary authors that survives being kept as one text: at
/// least one entry, and no entry holding the separator.
pub open spec fn authors_keepable(o: Option<Vec<String>>) -> bool {
    o matches Option::Some(v) ==> v@.len() >= 1 && forall|i: int|
        0 <= i < v@.len() ==> crate::codec::has_no_sep(#[trigger] v@[i]@)
}

proof fn lemma_text_round_trip(p: SqlParam, c: StoredValue, o: Option<Seq<char>>)
    requires
        param_opt_text(p, o),
        stored_as(p, c),
    ensures
        c is Null || is_text(c),
        opt_text_cell(c, o),
{
    broadcast use vstd::utf8::encode_utf8_decode_utf8, vstd::utf8::encode_utf8_valid_utf8;

    if let Option::Some(s) = o {
        assert(encode_utf8(s) == c->Text_0@);
    }
}

/// A record written by an insert and read back by a listing has the fields
/// it was written with: absent fields stay absent, a record without a copy
/// count comes back with one copy, and the secondary authors come back as
/// the same entries in the same order (where they can be kept as one text).
pub proof fn lemma_round_trip(
    book: Book,
    ps: Seq<SqlParam>,
    id: int,
    cells: Seq<StoredValue>,
    back: Book,
)
    requires
        params_match(book, ps),
        0 <= id <= u32::MAX,
        stored_row(ps, id, cells),
        authors_keepable(book.secondary_authors),
        row_matches(back, cells),
    ensures
        row_decodes(cells),
        back.id == id,
        back.title@ == book.title@,
        text_of(back.author) == text_of(book.author),
        text_of(back.bookid) == text_of(book.bookid),
        text_of(back.idtype) == text_of(book.idtype),
        text_of(back.publisher) == text_of(book.publisher),
        back.publication_year == book.publication_year,
        back.copies == Some(stored_copies(book.copies) as u32),
        back.secondary_authors is Some <==> book.secondary_authors is Some,
        book.secondary_authors matches Some(v) ==> texts(back.secondary_authors->0@) == texts(
            v@,
        ),
{
    broadcast use vstd::utf8::encode_utf8_decode_utf8, vstd::utf8::encode_utf8_valid_utf8;

    lemma_text_round_trip(ps[0], cells[1], Some(book.title@));
    lemma_text_round_trip(ps[1], cells[2], text_of(book.author));
    lemma_text_round_trip(ps[2], cells[3], text_of(book.bookid));
    lemma_text_round_trip(ps[3], cells[4], text_of(book.idtype));
    lemma_text_round_trip(ps[6], cells[7], text_of(book.publisher));
    assert(decode_utf8(cells[1]->Text_0@) == book.title@);
    if let Option::Some(v) = book.secondary_authors {
        let j = join_spec(texts(v@));
        assert(encode_utf8(j) == cells[5]->Text_0@);
        assert forall|i: int| 0 <= i < texts(v@).len() implies crate::codec::has_no_sep(
            #[trigger] texts(v@)[i],
        ) by {
            assert(texts(v@)[i] == v@[i]@);
        }
        crate::codec::lemma_split_join(texts(v@));
    }
}

} // verus!
