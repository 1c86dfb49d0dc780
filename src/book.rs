use vstd::prelude::*;

verus! {

pub type BookID = usize;

/// The scheme of an external catalog number.
#[derive(Debug, Clone, PartialEq, Eq)]
pub enum BookIdentifier {
    ISBN(String),
    Unlisted,
}

impl Default for BookIdentifier {
    fn default() -> (r: Self)
        ensures
            r is Unlisted,
    {
        BookIdentifier::Unlisted
    }
}

/// One catalog entry: a transient snapshot of a stored row.
#[derive(Debug, Clone, PartialEq, Eq)]
pub struct Book {
    pub id: u32,
    pub title: String,
    pub author: Option<String>,
    pub bookid: Option<String>,
    pub idtype: Option<String>,
    pub secondary_authors: Option<Vec<String>>,
    pub publication_year: Option<u16>,
    pub publisher: Option<String>,
    pub cover: Option<Vec<u8>>,
    pub copies: Option<u32>,
}

/// The characters of an optional text field.
pub open spec fn text_of(o: Option<String>) -> Option<Seq<char>> {
    match o {
        Option::Some(s) => Option::Some(s@),
        Option::None => Option::None,
    }
}

/// The scheme name recorded beside an ISBN.
pub open spec fn isbn_label() -> Seq<char> {
    seq!['I', 'S', 'B', 'N']
}

impl Book {
    /// A record with every field empty: id 0, an empty title and no optional
    /// field present.
    pub open spec fn is_blank(&self) -> bool {
        &&& self.id == 0
        &&& self.title@.len() == 0
        &&& self.author is None
        &&& self.bookid is None
        &&& self.idtype is None
        &&& self.secondary_authors is None
        &&& self.publication_year is None
        &&& self.publisher is None
        &&& self.cover is None
        &&& self.copies is None
    }

    pub fn new() -> (r: Book)
        ensures
            r.is_blank(),
    {
        Book {
            id: 0,
            title: String::new(),
            author: None,
            bookid: None,
            idtype: None,
            secondary_authors: None,
            publication_year: None,
            publisher: None,
            cover: None,
            copies: None,
        }
    }

    /// Sets the primary author; every other field is kept.
    pub fn author(self, author: &str) -> (r: Book)
        ensures
            text_of(r.author) == Some(author@),
            r == (Book { author: r.author, ..self }),
    {
        let mut b = self;
        b.author = Some(String::from_str(author));
        b
    }

    /// Sets the identifier to an ISBN, recording its scheme; every other field
    /// is kept.
    pub fn isbn(self, isbn: &str) -> (r: Book)
        ensures
            text_of(r.bookid) == Some(isbn@),
            text_of(r.idtype) == Some(isbn_label()),
            r == (Book { bookid: r.bookid, idtype: r.idtype, ..self }),
    {
        let mut b = self;
        b.bookid = Some(String::from_str(isbn));
        proof {
            reveal_strlit("ISBN");
        }
        b.idtype = Some(String::from_str("ISBN"));
        b
    }
}

impl Book {
    /// The record's identifier with its scheme: an ISBN where one is recorded
    /// as such, else none that this catalog knows.
    pub fn identifier(&self) -> (r: BookIdentifier)
        ensures
            (self.bookid is Some && text_of(self.idtype) == Some(isbn_label())) ==> r
                == BookIdentifier::ISBN(self.bookid->0),
            !(self.bookid is Some && text_of(self.idtype) == Some(isbn_label())) ==> r
                is Unlisted,
    {
        proof {
            reveal_strlit("ISBN");
        }
        let label = String::from_str("ISBN");
        assert(label@ =~= isbn_label());
        match (&self.bookid, &self.idtype) {
            (Some(id), Some(kind)) => {
                if *kind == label {
                    BookIdentifier::ISBN(id.clone())
                } else {
                    BookIdentifier::Unlisted
                }
            },
            _ => BookIdentifier::Unlisted,
        }
    }
}

impl Default for Book {
    fn default() -> (r: Book)
        ensures
            r.is_blank(),
    {
        Book::new()
    }
}

} // verus!
