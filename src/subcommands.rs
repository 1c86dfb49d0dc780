//! What the command line decides: which ordering its flags ask for, what
//! each listed field shows, where a lookup goes, and the exit code of each
//! kind of failure.
use vstd::prelude::*;
use crate::book::{text_of, Book};
use crate::codec::{join_with, joined, texts};
use crate::database::BookOrder;
use crate::rows::StoreError;

verus! {

#[verifier::external_type_specification]
#[verifier::external_body]
pub struct ExReqwestError(reqwest::Error);

#[verifier::external_type_specification]
#[verifier::external_body]
pub struct ExJsonError(serde_json::Error);

/// A failure of a command, by the part of the work that failed.
#[derive(Debug)]
pub enum SubCommandError {
    ReqwestError(reqwest::Error),
    RusqliteError(StoreError),
    SerdeError(serde_json::Error),
}

/// The exit code of each kind of failure: all above 100, none alike.
pub open spec fn exit_code_spec(e: SubCommandError) -> usize {
    match e {
        SubCommandError::ReqwestError(_) => 101,
        SubCommandError::RusqliteError(_) => 102,
        SubCommandError::SerdeError(_) => 103,
    }
}

impl SubCommandError {
    pub fn exit_code(&self) -> (r: usize)
        ensures
            r == exit_code_spec(*self),
    {
        100 + match self {
            SubCommandError::ReqwestError(_) => 1,
            SubCommandError::RusqliteError(_) => 2,
            SubCommandError::SerdeError(_) => 3,
        }
    }
}

impl From<SubCommandError> for usize {
    fn from(error: SubCommandError) -> (r: usize) {
        error.exit_code()
    }
}

impl vstd::std_specs::convert::FromSpecImpl<SubCommandError> for usize {
    open spec fn obeys_from_spec() -> bool {
        true
    }

    open spec fn from_spec(v: SubCommandError) -> usize {
        exit_code_spec(v)
    }
}

impl From<StoreError> for SubCommandError {
    fn from(error: StoreError) -> (r: SubCommandError) {
        SubCommandError::RusqliteError(error)
    }
}

impl vstd::std_specs::convert::FromSpecImpl<StoreError> for SubCommandError {
    open spec fn obeys_from_spec() -> bool {
        true
    }

    open spec fn from_spec(v: StoreError) -> SubCommandError {
        SubCommandError::RusqliteError(v)
    }
}

impl From<reqwest::Error> for SubCommandError {
    fn from(error: reqwest::Error) -> (r: SubCommandError) {
        SubCommandError::ReqwestError(error)
    }
}

impl vstd::std_specs::convert::FromSpecImpl<reqwest::Error> for SubCommandError {
    open spec fn obeys_from_spec() -> bool {
        true
    }

    open spec fn from_spec(v: reqwest::Error) -> SubCommandError {
        SubCommandError::ReqwestError(v)
    }
}

impl From<serde_json::Error> for SubCommandError {
    fn from(error: serde_json::Error) -> (r: SubCommandError) {
        SubCommandError::SerdeError(error)
    }
}

impl vstd::std_specs::convert::FromSpecImpl<serde_json::Error> for SubCommandError {
    open spec fn obeys_from_spec() -> bool {
        true
    }

    open spec fn from_spec(v: serde_json::Error) -> SubCommandError {
        SubCommandError::SerdeError(v)
    }
}

/// The ordering that the list command's flags ask for: the first set flag
/// of id, isbn, copies, author wins, and title is the default.
pub fn order_from_flags(id: bool, isbn: bool, copies: bool, author: bool) -> (r: BookOrder)
    ensures
        id ==> r == BookOrder::Id,
        !id && isbn ==> r == BookOrder::ISBN,
        !id && !isbn && copies ==> r == BookOrder::Copies,
        !id && !isbn && !copies && author ==> r == BookOrder::Author,
        !id && !isbn && !copies && !author ==> r == BookOrder::Title,
{
    if id {
        BookOrder::Id
    } else if isbn {
        BookOrder::ISBN
    } else if copies {
        BookOrder::Copies
    } else if author {
        BookOrder::Author
    } else {
        BookOrder::Title
    }
}

pub open spec fn lookup_prefix() -> Seq<char> {
    "https://www.googleapis.com/books/v1/volumes?q=isbn:"@
}

/// The address of the remote catalog's record for `isbn`.
pub fn lookup_url(isbn: &str) -> (r: String)
    ensures
        r@ == lookup_prefix() + isbn@,
{
    String::from_str("https://www.googleapis.com/books/v1/volumes?q=isbn:").concat(isbn)
}

pub open spec fn digit_char(d: nat) -> char {
    "0123456789"@[d as int]
}

/// The decimal digits of `n`, most significant first, without leading zeros.
pub open spec fn decimal_spec(n: nat) -> Seq<char>
    decreases n,
{
    if n < 10 {
        seq![digit_char(n)]
    } else {
        decimal_spec(n / 10) + seq![digit_char(n % 10)]
    }
}

fn digit(d: u64) -> (r: &'static str)
    requires
        d < 10,
    ensures
        r@ == seq![digit_char(d as nat)],
{
    proof {
        reveal_strlit("0123456789");
    }
    let r = "0123456789".substring_char(d as usize, d as usize + 1);
    assert(r@ =~= seq![digit_char(d as nat)]);
    r
}

/// `n` written in decimal.
pub fn decimal(n: u64) -> (r: String)
    ensures
        r@ == decimal_spec(n as nat),
    decreases n,
{
    if n < 10 {
        String::from_str(digit(n))
    } else {
        decimal(n / 10).concat(digit(n % 10))
    }
}

/// The text shown for an optional field: its own, or `label` where absent.
pub open spec fn shown(o: Option<Seq<char>>, label: Seq<char>) -> Seq<char> {
    match o {
        Option::Some(s) => s,
        Option::None => label,
    }
}

fn show(o: &Option<String>, label: &str) -> (r: String)
    ensures
        r@ == shown(text_of(*o), label@),
{
    match o {
        Some(s) => s.clone(),
        None => String::from_str(label),
    }
}

pub open spec fn shown_authors(o: Option<Vec<String>>) -> Seq<char> {
    match o {
        Option::Some(v) => joined(texts(v@), ", "@),
        Option::None => "-"@,
    }
}

pub open spec fn shown_year(o: Option<u16>) -> Seq<char> {
    match o {
        Option::Some(y) => decimal_spec(y as nat),
        Option::None => "[unknown]"@,
    }
}

pub open spec fn shown_copies(o: Option<u32>) -> Seq<char> {
    match o {
        Option::Some(c) => decimal_spec(c as nat),
        Option::None => decimal_spec(1),
    }
}

/// The fields of one listed book: id, title, author, identifier and, for a
/// complete listing, secondary authors, publication year, publisher, copies.
/// An absent field shows a label in its place; absent copies show as 1.
pub fn book_cells(book: &Book, complete: bool) -> (r: Vec<String>)
    ensures
        r@.len() == (if complete { 8int } else { 4int }),
        r@[0]@ == decimal_spec(book.id as nat),
        r@[1]@ == book.title@,
        r@[2]@ == shown(text_of(book.author), "[Author Unknown]"@),
        r@[3]@ == shown(text_of(book.bookid), "[no bookid]"@),
        complete ==> r@[4]@ == shown_authors(book.secondary_authors),
        complete ==> r@[5]@ == shown_year(book.publication_year),
        complete ==> r@[6]@ == shown(text_of(book.publisher), "[publisher unknown]"@),
        complete ==> r@[7]@ == shown_copies(book.copies),
{
    let mut cells: Vec<String> = Vec::new();
    cells.push(decimal(book.id as u64));
    cells.push(book.title.clone());
    cells.push(show(&book.author, "[Author Unknown]"));
    cells.push(show(&book.bookid, "[no bookid]"));
    if complete {
        cells.push(
            match &book.secondary_authors {
                Some(v) => join_with(v, ", "),
                None => String::from_str("-"),
            },
        );
        cells.push(
            match book.publication_year {
                Some(y) => decimal(y as u64),
                None => String::from_str("[unknown]"),
            },
        );
        cells.push(show(&book.publisher, "[publisher unknown]"));
        cells.push(
            match book.copies {
                Some(c) => decimal(c as u64),
                None => decimal(1),
            },
        );
    }
    cells
}

/// The column titles of a listing, matching `book_cells`.
pub fn header_cells(complete: bool) -> (r: Vec<String>)
    ensures
        r@.len() == (if complete { 8int } else { 4int }),
        r@[0]@ == "ID"@,
        r@[1]@ == "TITLE"@,
        r@[2]@ == "AUTHOR"@,
        r@[3]@ == "ISBN"@,
        complete ==> r@[4]@ == "SECONDARY AUTHORS"@,
        complete ==> r@[5]@ == "PUBLICATION YEAR"@,
        complete ==> r@[6]@ == "PUBLISHER"@,
        complete ==> r@[7]@ == "COPIES"@,
{
    let mut cells: Vec<String> = Vec::new();
    cells.push(String::from_str("ID"));
    cells.push(String::from_str("TITLE"));
    cells.push(String::from_str("AUTHOR"));
    cells.push(String::from_str("ISBN"));
    if complete {
        cells.push(String::from_str("SECONDARY AUTHORS"));
        cells.push(String::from_str("PUBLICATION YEAR"));
        cells.push(String::from_str("PUBLISHER"));
        cells.push(String::from_str("COPIES"));
    }
    cells
}

} // verus!
