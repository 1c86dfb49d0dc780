use vstd::prelude::*;
use vstd::utf8::encode_utf8;
use crate::book::Book;
use crate::database::BookOrder;

verus! {

broadcast use vstd::seq_lib::group_to_multiset_ensures, vstd::multiset::group_multiset_axioms;

/// Byte-wise lexicographic order, a prefix first: SQLite's BINARY collation.
pub open spec fn bytes_le(a: Seq<u8>, b: Seq<u8>) -> bool
    decreases a.len(),
{
    if a.len() == 0 {
        true
    } else if b.len() == 0 {
        false
    } else if a[0] != b[0] {
        a[0] < b[0]
    } else {
        bytes_le(a.drop_first(), b.drop_first())
    }
}

/// Text is compared by its UTF-8 encoding, byte by byte.
pub open spec fn text_le(a: Seq<char>, b: Seq<char>) -> bool {
    bytes_le(encode_utf8(a), encode_utf8(b))
}

/// Ascending order on an optional text, an absent value first.
pub open spec fn opt_text_le(a: Option<String>, b: Option<String>) -> bool {
    match (a, b) {
        (Option::None, _) => true,
        (Option::Some(_), Option::None) => false,
        (Option::Some(x), Option::Some(y)) => text_le(x@, y@),
    }
}

/// Descending order on an optional count, an absent count last.
pub open spec fn copies_ge(a: Option<u32>, b: Option<u32>) -> bool {
    match (a, b) {
        (_, Option::None) => true,
        (Option::None, Option::Some(_)) => false,
        (Option::Some(x), Option::Some(y)) => x >= y,
    }
}

pub open spec fn title_le(a: Book, b: Book) -> bool {
    text_le(a.title@, b.title@)
}

/// Whether `a` may stand before `b` in a listing under `order`. Where the
/// first key ties, the second decides.
pub open spec fn book_le(order: BookOrder, a: Book, b: Book) -> bool {
    match order {
        BookOrder::Author => opt_text_le(a.author, b.author) && (opt_text_le(b.author, a.author)
            ==> title_le(a, b)),
        BookOrder::Copies => copies_ge(a.copies, b.copies) && (copies_ge(b.copies, a.copies)
            ==> title_le(a, b)),
        BookOrder::Id => a.id <= b.id,
        BookOrder::ISBN => opt_text_le(a.bookid, b.bookid),
        BookOrder::Title => title_le(a, b),
    }
}

pub open spec fn sorted_by(order: BookOrder, s: Seq<Book>) -> bool {
    forall|i: int, j: int| 0 <= i < j < s.len() ==> book_le(order, #[trigger] s[i], #[trigger] s[j])
}

proof fn lemma_bytes_total(a: Seq<u8>, b: Seq<u8>)
    ensures
        bytes_le(a, b) || bytes_le(b, a),
    decreases a.len(),
{
    if a.len() > 0 && b.len() > 0 && a[0] == b[0] {
        lemma_bytes_total(a.drop_first(), b.drop_first());
    }
}

proof fn lemma_bytes_trans(a: Seq<u8>, b: Seq<u8>, c: Seq<u8>)
    requires
        bytes_le(a, b),
        bytes_le(b, c),
    ensures
        bytes_le(a, c),
    decreases a.len(),
{
    if a.len() > 0 && b.len() > 0 && c.len() > 0 && a[0] == b[0] && b[0] == c[0] {
        lemma_bytes_trans(a.drop_first(), b.drop_first(), c.drop_first());
    }
}

proof fn lemma_text_total(a: Seq<char>, b: Seq<char>)
    ensures
        text_le(a, b) || text_le(b, a),
{
    lemma_bytes_total(encode_utf8(a), encode_utf8(b));
}

proof fn lemma_text_trans(a: Seq<char>, b: Seq<char>, c: Seq<char>)
    requires
        text_le(a, b),
        text_le(b, c),
    ensures
        text_le(a, c),
{
    lemma_bytes_trans(encode_utf8(a), encode_utf8(b), encode_utf8(c));
}

proof fn lemma_opt_text_total(a: Option<String>, b: Option<String>)
    ensures
        opt_text_le(a, b) || opt_text_le(b, a),
{
    if a is Some && b is Some {
        lemma_text_total(a->0@, b->0@);
    }
}

proof fn lemma_opt_text_trans(a: Option<String>, b: Option<String>, c: Option<String>)
    requires
        opt_text_le(a, b),
        opt_text_le(b, c),
    ensures
        opt_text_le(a, c),
{
    if a is Some && b is Some && c is Some {
        lemma_text_trans(a->0@, b->0@, c->0@);
    }
}

/// Any two books are ordered one way or the other under every ordering.
pub proof fn lemma_book_le_total(order: BookOrder, a: Book, b: Book)
    ensures
        book_le(order, a, b) || book_le(order, b, a),
{
    lemma_text_total(a.title@, b.title@);
    lemma_opt_text_total(a.author, b.author);
    lemma_opt_text_total(a.bookid, b.bookid);
}

/// Every ordering is transitive.
pub proof fn lemma_book_le_trans(order: BookOrder, a: Book, b: Book, c: Book)
    requires
        book_le(order, a, b),
        book_le(order, b, c),
    ensures
        book_le(order, a, c),
{
    match order {
        BookOrder::Author => {
            lemma_opt_text_trans(a.author, b.author, c.author);
            if opt_text_le(c.author, a.author) {
                lemma_opt_text_trans(b.author, c.author, a.author);
                lemma_opt_text_trans(c.author, a.author, b.author);
                lemma_text_trans(a.title@, b.title@, c.title@);
            }
        },
        BookOrder::Copies => {
            if copies_ge(c.copies, a.copies) {
                lemma_text_trans(a.title@, b.title@, c.title@);
            }
        },
        BookOrder::Id => {},
        BookOrder::ISBN => {
            lemma_opt_text_trans(a.bookid, b.bookid, c.bookid);
        },
        BookOrder::Title => {
            lemma_text_trans(a.title@, b.title@, c.title@);
        },
    }
}

/// In a listing by copies where every book has a count, the counts never
/// rise, and books with equal counts stand in title order.
pub proof fn lemma_copies_listing(v: Seq<Book>)
    requires
        sorted_by(BookOrder::Copies, v),
        forall|i: int| 0 <= i < v.len() ==> (#[trigger] v[i]).copies is Some,
    ensures
        forall|i: int, j: int|
            0 <= i < j < v.len() ==> {
                &&& (#[trigger] v[i]).copies->0 >= (#[trigger] v[j]).copies->0
                &&& (v[i].copies == v[j].copies ==> title_le(v[i], v[j]))
            },
{
    assert forall|i: int, j: int| 0 <= i < j < v.len() implies {
        &&& (#[trigger] v[i]).copies->0 >= (#[trigger] v[j]).copies->0
        &&& (v[i].copies == v[j].copies ==> title_le(v[i], v[j]))
    } by {
        assert(book_le(BookOrder::Copies, v[i], v[j]));
        assert(v[i].copies is Some && v[j].copies is Some);
    }
}

/// In a listing by title, each title is at most the next, byte by byte.
pub proof fn lemma_title_listing(v: Seq<Book>)
    requires
        sorted_by(BookOrder::Title, v),
    ensures
        forall|i: int, j: int| 0 <= i < j < v.len() ==> title_le(#[trigger] v[i], #[trigger] v[j]),
{
}

/// Compares two byte strings in the order of `bytes_le`.
fn bytes_precede(a: &[u8], b: &[u8]) -> (r: bool)
    ensures
        r == bytes_le(a@, b@),
{
    let mut i: usize = 0;
    let n = a.len();
    let m = b.len();
    assert(a@.subrange(0, n as int) =~= a@);
    assert(b@.subrange(0, m as int) =~= b@);
    while i < n && i < m
        invariant
            n == a@.len(),
            m == b@.len(),
            i <= n,
            i <= m,
            bytes_le(a@, b@) == bytes_le(
                a@.subrange(i as int, n as int),
                b@.subrange(i as int, m as int),
            ),
        decreases n - i,
    {
        let x = a[i];
        let y = b[i];
        let ghost ra = a@.subrange(i as int, n as int);
        let ghost rb = b@.subrange(i as int, m as int);
        assert(ra[0] == x && rb[0] == y);
        if x != y {
            return x < y;
        }
        assert(ra.drop_first() =~= a@.subrange(i + 1, n as int));
        assert(rb.drop_first() =~= b@.subrange(i + 1, m as int));
        i = i + 1;
    }
    i == n
}

fn text_precede(a: &String, b: &String) -> (r: bool)
    ensures
        r == text_le(a@, b@),
{
    bytes_precede(a.as_str().as_bytes(), b.as_str().as_bytes())
}

fn opt_text_precede(a: &Option<String>, b: &Option<String>) -> (r: bool)
    ensures
        r == opt_text_le(*a, *b),
{
    match (a, b) {
        (None, _) => true,
        (Some(_), None) => false,
        (Some(x), Some(y)) => text_precede(x, y),
    }
}

fn copies_precede(a: &Option<u32>, b: &Option<u32>) -> (r: bool)
    ensures
        r == copies_ge(*a, *b),
{
    match (a, b) {
        (_, None) => true,
        (None, Some(_)) => false,
        (Some(x), Some(y)) => *x >= *y,
    }
}

/// Whether `a` may stand before `b` under `order`.
pub fn precedes(order: &BookOrder, a: &Book, b: &Book) -> (r: bool)
    ensures
        r == book_le(*order, *a, *b),
{
    match order {
        BookOrder::Author => {
            if !opt_text_precede(&a.author, &b.author) {
                false
            } else if opt_text_precede(&b.author, &a.author) {
                text_precede(&a.title, &b.title)
            } else {
                true
            }
        },
        BookOrder::Copies => {
            if !copies_precede(&a.copies, &b.copies) {
                false
            } else if copies_precede(&b.copies, &a.copies) {
                text_precede(&a.title, &b.title)
            } else {
                true
            }
        },
        BookOrder::Id => a.id <= b.id,
        BookOrder::ISBN => opt_text_precede(&a.bookid, &b.bookid),
        BookOrder::Title => text_precede(&a.title, &b.title),
    }
}

/// Arranges `books` under `order`: every book is kept, as often as it came,
/// and none is added. The listing query already asks SQLite for this order;
/// the rows are arranged again here so that the order of a listing is proved
/// rather than taken on trust from the engine. On books that already stand
/// in order each one is compared once.
pub fn sort_books(books: Vec<Book>, order: &BookOrder) -> (r: Vec<Book>)
    ensures
        r@.to_multiset() == books@.to_multiset(),
        sorted_by(*order, r@),
{
    let ghost all = books@.to_multiset();
    let mut rest = books;
    let mut out: Vec<Book> = Vec::new();
    while rest.len() > 0
        invariant
            out@.to_multiset().add(rest@.to_multiset()) == all,
            sorted_by(*order, out@),
        decreases rest.len(),
    {
        let ghost before = rest@;
        let b = rest.pop().unwrap();
        assert(before =~= rest@.push(b));
        let mut j: usize = 0;
        while j < out.len()
            invariant
                j <= out.len(),
                forall|k: int| 0 <= k < j ==> !book_le(*order, b, #[trigger] out@[k]),
            ensures
                j <= out.len(),
                forall|k: int| 0 <= k < j ==> !book_le(*order, b, #[trigger] out@[k]),
                j < out.len() ==> book_le(*order, b, out@[j as int]),
            decreases out.len() - j,
        {
            if precedes(order, &b, &out[j]) {
                break;
            }
            j = j + 1;
        }
        let ghost prev = out@;
        out.insert(j, b);
        proof {
            assert forall|x: int, y: int| 0 <= x < y < out@.len() implies book_le(
                *order,
                #[trigger] out@[x],
                #[trigger] out@[y],
            ) by {
                if x < j && y == j {
                    lemma_book_le_total(*order, b, prev[x]);
                } else if x == j && y > j + 1 {
                    assert(book_le(*order, prev[j as int], prev[y - 1]));
                    lemma_book_le_trans(*order, b, prev[j as int], prev[y - 1]);
                } else if x < j && y > j {
                    assert(book_le(*order, prev[x], prev[y - 1]));
                } else if x > j {
                    assert(book_le(*order, prev[x - 1], prev[y - 1]));
                }
            }
            assert(out@.to_multiset().add(rest@.to_multiset()) =~= all);
        }
    }
    assert(out@.to_multiset() =~= all);
    out
}

} // verus!
