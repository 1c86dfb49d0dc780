//! The store of the catalog: its schema, and the reads and writes of books.
use vstd::prelude::*;
use crate::book::{Book, BookID};
use crate::ordering::{sort_books, sorted_by};
use crate::rows::{decode_row, encode_book, row_decodes, row_matches, StoreError, ROW_WIDTH};
use crate::store::{
    base_directories, execute, last_insert_rowid, next_row, open_connection, place_data_file,
    prepare, query, StoredValue,
};
use rusqlite::Connection;
use std::path::PathBuf;

verus! {

broadcast use vstd::seq_lib::group_to_multiset_ensures;

/// The orderings a listing can be asked for.
#[derive(Debug, Clone, Copy, PartialEq, Eq)]
pub enum BookOrder {
    /// Author ascending, an absent author first, then title ascending.
    Author,
    /// Copies descending, then title ascending.
    Copies,
    /// Id ascending.
    Id,
    /// Identifier ascending, an absent identifier first.
    ISBN,
    /// Title ascending.
    Title,
}

/// An open store whose tables exist.
#[derive(Debug)]
pub struct BookConnection {
    connection: Connection,
}

pub const BOOKS_TABLE: &'static str = "CREATE TABLE IF NOT EXISTS \"books\" (
    \"id\" INTEGER NOT NULL PRIMARY KEY AUTOINCREMENT UNIQUE,
    \"title\" TEXT,
    \"author\" TEXT,
    \"bookid\" TEXT,
    \"idtype\" TEXT,
    \"secondary_authors\" TEXT,
    \"publication_year\" INTEGER,
    \"publisher\" TEXT,
    \"cover\" BLOB,
    \"copies\" INTEGER NOT NULL DEFAULT 1
)";

pub const LENDING_TABLE: &'static str = "CREATE TABLE IF NOT EXISTS \"lending\" (
    \"id\" INTEGER NOT NULL PRIMARY KEY AUTOINCREMENT,
    \"book_id\" INTEGER NOT NULL,
    \"date\" TEXT,
    \"action\" TEXT
)";

pub const TAGS_TABLE: &'static str = "CREATE TABLE IF NOT EXISTS \"tags\" (
    \"id\" INTEGER NOT NULL PRIMARY KEY AUTOINCREMENT,
    \"book_id\" INTEGER NOT NULL,
    \"tag\" TEXT NOT NULL
)";

pub const LIST_SELECT: &'static str = "SELECT id, title, author, bookid, idtype, secondary_authors, \
    publication_year, publisher, copies FROM books ORDER BY ";

pub const INSERT_BOOK: &'static str = "INSERT INTO books (title, author, bookid, idtype, \
    secondary_authors, publication_year, publisher, cover, copies) \
    VALUES (?1, ?2, ?3, ?4, ?5, ?6, ?7, ?8, ?9)";

pub const APP_PREFIX: &'static str = "bookthing";

pub const STORE_FILE: &'static str = "database.db";

pub open spec fn order_clause_spec(order: BookOrder) -> Seq<char> {
    match order {
        BookOrder::Author => "author ASC, title ASC"@,
        BookOrder::Copies => "copies DESC, title ASC"@,
        BookOrder::Id => "id ASC"@,
        BookOrder::ISBN => "bookid ASC"@,
        BookOrder::Title => "title ASC"@,
    }
}

/// The ORDER BY terms that ask the store for `order`.
pub fn order_clause(order: BookOrder) -> (r: &'static str)
    ensures
        r@ == order_clause_spec(order),
{
    match order {
        BookOrder::Author => "author ASC, title ASC",
        BookOrder::Copies => "copies DESC, title ASC",
        BookOrder::Id => "id ASC",
        BookOrder::ISBN => "bookid ASC",
        BookOrder::Title => "title ASC",
    }
}

/// The query that reads every book, asking the store for `order`.
pub fn list_query(order: BookOrder) -> (r: String)
    ensures
        r@ == LIST_SELECT@ + order_clause_spec(order),
{
    String::from_str(LIST_SELECT).concat(order_clause(order))
}

/// Creates the tables that are missing; those that exist keep their rows.
fn ensure_schema(conn: &Connection) -> (r: Result<(), StoreError>)
    ensures
        r matches Err(e) ==> e == StoreError::Schema,
{
    if execute(conn, BOOKS_TABLE, Vec::new()).is_err() {
        return Err(StoreError::Schema);
    }
    if execute(conn, LENDING_TABLE, Vec::new()).is_err() {
        return Err(StoreError::Schema);
    }
    if execute(conn, TAGS_TABLE, Vec::new()).is_err() {
        return Err(StoreError::Schema);
    }
    Ok(())
}

/// `d` holds, position by position, the records that `rows` hold.
pub open spec fn records_of(d: Seq<Book>, rows: Seq<Vec<StoredValue>>) -> bool {
    &&& d.len() == rows.len()
    &&& forall|i: int| 0 <= i < d.len() ==> row_matches(#[trigger] d[i], rows[i]@)
}

/// Every record of `v` has a copy count.
pub open spec fn all_counted(v: Seq<Book>) -> bool {
    forall|i: int| 0 <= i < v.len() ==> (#[trigger] v[i]).copies is Some
}

/// One record for each row, in the rows' order; the first row that does not
/// fit its fields makes the whole call fail.
pub fn decode_rows(rows: &Vec<Vec<StoredValue>>) -> (r: Result<Vec<Book>, StoreError>)
    ensures
        r is Ok <==> forall|i: int| 0 <= i < rows@.len() ==> row_decodes(#[trigger] rows@[i]@),
        r matches Ok(v) ==> v@.len() == rows@.len() && forall|i: int|
            0 <= i < rows@.len() ==> row_matches(#[trigger] v@[i], rows@[i]@),
        r matches Ok(v) ==> all_counted(v@),
        r matches Err(e) ==> e == StoreError::Decode,
{
    let mut books: Vec<Book> = Vec::new();
    let mut i: usize = 0;
    while i < rows.len()
        invariant
            i <= rows@.len(),
            books@.len() == i,
            forall|k: int| 0 <= k < i ==> row_decodes(#[trigger] rows@[k]@),
            forall|k: int| 0 <= k < i ==> row_matches(#[trigger] books@[k], rows@[k]@),
            all_counted(books@),
        decreases rows@.len() - i,
    {
        match decode_row(&rows[i]) {
            Ok(b) => books.push(b),
            Err(e) => return Err(e),
        }
        i = i + 1;
    }
    Ok(books)
}

/// The books that `rows` hold, arranged under `order`: one book for each
/// row, none left out, none repeated, none added.
pub fn arrange_rows(rows: &Vec<Vec<StoredValue>>, order: BookOrder) -> (r: Result<
    Vec<Book>,
    StoreError,
>)
    ensures
        r is Ok <==> forall|i: int| 0 <= i < rows@.len() ==> row_decodes(#[trigger] rows@[i]@),
        r matches Ok(v) ==> sorted_by(order, v@) && all_counted(v@),
        r matches Ok(v) ==> exists|d: Seq<Book>|
            #[trigger] records_of(d, rows@) && v@.to_multiset() == d.to_multiset(),
        r matches Err(e) ==> e == StoreError::Decode,
{
    match decode_rows(rows) {
        Ok(books) => {
            let ghost d = books@;
            let sorted = sort_books(books, &order);
            assert(records_of(d, rows@));
            proof {
                assert forall|i: int| 0 <= i < sorted@.len() implies (#[trigger] sorted@[i]).copies
                    is Some by {
                    vstd::seq_lib::to_multiset_contains(sorted@, sorted@[i]);
                    vstd::seq_lib::to_multiset_contains(d, sorted@[i]);
                    assert(sorted@.contains(sorted@[i]));
                    let j = choose|j: int| 0 <= j < d.len() && d[j] == sorted@[i];
                    assert(d[j].copies is Some);
                }
            }
            Ok(sorted)
        },
        Err(e) => Err(e),
    }
}

/// The id of a new book from the rowid the store gave its row; a rowid
/// that no id can hold means the write cannot be trusted.
pub fn book_id_from_rowid(rowid: i64) -> (r: Result<BookID, StoreError>)
    ensures
        (0 <= rowid && rowid <= usize::MAX) <==> r is Ok,
        r matches Ok(id) ==> id == rowid,
        r matches Err(e) ==> e == StoreError::Write,
{
    if rowid < 0 || rowid as u64 > usize::MAX as u64 {
        Err(StoreError::Write)
    } else {
        Ok(rowid as usize)
    }
}

impl BookConnection {
    /// Opens the store in the user's data directory.
    pub fn new() -> (r: Result<BookConnection, StoreError>)
        ensures
            r matches Err(e) ==> e == StoreError::Location || e == StoreError::Open || e
                == StoreError::Schema,
    {
        let dirs = match base_directories(APP_PREFIX) {
            Some(d) => d,
            None => return Err(StoreError::Location),
        };
        match place_data_file(&dirs, STORE_FILE) {
            Some(path) => BookConnection::establish_connection(path),
            None => Err(StoreError::Location),
        }
    }

    /// Opens the store at `path`.
    pub fn from_path(path: PathBuf) -> (r: Result<BookConnection, StoreError>)
        ensures
            r matches Err(e) ==> e == StoreError::Open || e == StoreError::Schema,
    {
        BookConnection::establish_connection(path)
    }

    fn establish_connection(path: PathBuf) -> (r: Result<BookConnection, StoreError>)
        ensures
            r matches Err(e) ==> e == StoreError::Open || e == StoreError::Schema,
    {
        let connection = match open_connection(path) {
            Ok(c) => c,
            Err(_) => return Err(StoreError::Open),
        };
        match ensure_schema(&connection) {
            Ok(()) => Ok(BookConnection { connection }),
            Err(e) => Err(e),
        }
    }

    /// Every row of `books` as the store hands it back for `sql`.
    fn fetch_rows(&self, sql: &str) -> (r: Result<Vec<Vec<StoredValue>>, StoreError>)
        ensures
            r matches Ok(rows) ==> forall|i: int|
                0 <= i < rows@.len() ==> (#[trigger] rows@[i])@.len() == ROW_WIDTH,
            r matches Err(e) ==> e == StoreError::Query,
    {
        let mut stmt = match prepare(&self.connection, sql) {
            Ok(s) => s,
            Err(_) => return Err(StoreError::Query),
        };
        let mut rows = match query(&mut stmt) {
            Ok(r) => r,
            Err(_) => return Err(StoreError::Query),
        };
        let mut out: Vec<Vec<StoredValue>> = Vec::new();
        loop
            invariant
                forall|i: int| 0 <= i < out@.len() ==> (#[trigger] out@[i])@.len() == ROW_WIDTH,
            decreases usize::MAX - out@.len(),
        {
            if out.len() == usize::MAX {
                // more rows than memory can hold
                return Err(StoreError::Query);
            }
            match next_row(&mut rows, ROW_WIDTH) {
                Ok(Some(cells)) => out.push(cells),
                Ok(None) => return Ok(out),
                Err(_) => return Err(StoreError::Query),
            }
        }
    }

    /// Every book in the store, arranged under `sorting`. A store that cannot
    /// be read, or a row that does not fit its fields, fails the listing:
    /// nothing partial is returned.
    pub fn list(&self, sorting: BookOrder) -> (r: Result<Vec<Book>, StoreError>)
        ensures
            r matches Ok(v) ==> sorted_by(sorting, v@) && all_counted(v@),
            r matches Err(e) ==> e == StoreError::Query || e == StoreError::Decode,
    {
        let sql = list_query(sorting);
        match self.fetch_rows(sql.as_str()) {
            Ok(rows) => arrange_rows(&rows, sorting),
            Err(e) => Err(e),
        }
    }

    /// Writes `book` as a new row and returns the id the store gave it. The
    /// record's own id is not written; a record without a copy count is
    /// stored with one copy.
    pub fn insert(&self, book: Book) -> (r: Result<BookID, StoreError>)
        ensures
            r matches Err(e) ==> e == StoreError::Write,
    {
        let params = encode_book(book);
        if execute(&self.connection, INSERT_BOOK, params).is_err() {
            return Err(StoreError::Write);
        }
        let rowid = last_insert_rowid(&self.connection);
        book_id_from_rowid(rowid)
    }
}

} // verus!
