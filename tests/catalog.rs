use booklib::book::{Book, BookIdentifier};
use booklib::database::{arrange_rows, book_id_from_rowid, decode_rows, list_query, order_clause, BookConnection, BookOrder};
use booklib::ordering::{precedes, sort_books};
use booklib::rows::{decode_row, encode_book, StoreError};
use booklib::store::{SqlParam, StoredValue};
use std::path::PathBuf;

fn memory_store() -> BookConnection {
    BookConnection::from_path(PathBuf::from(":memory:")).expect("in-memory store opens")
}

fn titled(title: &str) -> Book {
    Book { title: title.to_string(), ..Book::new() }
}

fn titles(books: &[Book]) -> Vec<String> {
    books.iter().map(|b| b.title.clone()).collect()
}

fn text(s: &str) -> StoredValue {
    StoredValue::Text(s.as_bytes().to_vec())
}

fn row(id: i64, title: &str, authors: StoredValue) -> Vec<StoredValue> {
    vec![
        StoredValue::Integer(id),
        text(title),
        StoredValue::Null,
        StoredValue::Null,
        StoredValue::Null,
        authors,
        StoredValue::Null,
        StoredValue::Null,
        StoredValue::Integer(1),
    ]
}

#[test]
fn empty_store_lists_nothing() {
    let store = memory_store();
    assert_eq!(store.list(BookOrder::Title), Ok(vec![]));
}

#[test]
fn copies_then_title_scenario() {
    let store = memory_store();
    store.insert(Book { copies: Some(1), ..titled("Beta") }).unwrap();
    store.insert(Book { copies: Some(3), ..titled("Alpha") }).unwrap();
    let by_copies = store.list(BookOrder::Copies).unwrap();
    assert_eq!(titles(&by_copies), vec!["Alpha", "Beta"]);
    let by_title = store.list(BookOrder::Title).unwrap();
    assert_eq!(titles(&by_title), vec!["Alpha", "Beta"]);
}

#[test]
fn every_row_listed_once_under_every_ordering() {
    let store = memory_store();
    for t in ["Gamma", "Alpha", "Beta", "Alpha"] {
        store.insert(titled(t)).unwrap();
    }
    for order in [BookOrder::Author, BookOrder::Copies, BookOrder::Id, BookOrder::ISBN, BookOrder::Title] {
        let books = store.list(order).unwrap();
        let mut ids: Vec<u32> = books.iter().map(|b| b.id).collect();
        ids.sort();
        assert_eq!(ids, vec![1, 2, 3, 4]);
    }
}

#[test]
fn title_order_is_bytewise() {
    let store = memory_store();
    for t in ["beta", "Beta", "alpha", "Zeta", "Alp"] {
        store.insert(titled(t)).unwrap();
    }
    let books = store.list(BookOrder::Title).unwrap();
    assert_eq!(titles(&books), vec!["Alp", "Beta", "Zeta", "alpha", "beta"]);
}

#[test]
fn copies_descending_ties_by_title() {
    let store = memory_store();
    store.insert(Book { copies: Some(2), ..titled("Delta") }).unwrap();
    store.insert(Book { copies: Some(5), ..titled("Echo") }).unwrap();
    store.insert(Book { copies: Some(2), ..titled("Bravo") }).unwrap();
    store.insert(titled("Charlie")).unwrap();
    let books = store.list(BookOrder::Copies).unwrap();
    assert_eq!(titles(&books), vec!["Echo", "Bravo", "Delta", "Charlie"]);
}

#[test]
fn author_order_puts_unknown_first() {
    let store = memory_store();
    store.insert(titled("Zed").author("Smith")).unwrap();
    store.insert(titled("Abc").author("Smith")).unwrap();
    store.insert(titled("Mid")).unwrap();
    store.insert(titled("Any").author("Brown")).unwrap();
    let books = store.list(BookOrder::Author).unwrap();
    assert_eq!(titles(&books), vec!["Mid", "Any", "Abc", "Zed"]);
}

#[test]
fn id_and_identifier_orders() {
    let store = memory_store();
    store.insert(titled("One").isbn("978-3")).unwrap();
    store.insert(titled("Two")).unwrap();
    store.insert(titled("Three").isbn("978-1")).unwrap();
    let by_id = store.list(BookOrder::Id).unwrap();
    assert_eq!(titles(&by_id), vec!["One", "Two", "Three"]);
    let by_isbn = store.list(BookOrder::ISBN).unwrap();
    assert_eq!(titles(&by_isbn), vec!["Two", "Three", "One"]);
}

#[test]
fn secondary_authors_round_trip() {
    let store = memory_store();
    let authors = vec!["Doe, Jane".to_string(), "Roe, Richard".to_string()];
    store.insert(Book { secondary_authors: Some(authors.clone()), ..titled("Pair") }).unwrap();
    let books = store.list(BookOrder::Title).unwrap();
    assert_eq!(books[0].secondary_authors, Some(authors));
}

#[test]
fn absent_copies_default_to_one() {
    let store = memory_store();
    let id = store.insert(titled("Plain")).unwrap();
    assert_eq!(id, 1);
    let books = store.list(BookOrder::Title).unwrap();
    assert_eq!(books[0].copies, Some(1));
}

#[test]
fn absent_fields_stay_absent() {
    let store = memory_store();
    store.insert(titled("Bare")).unwrap();
    store.insert(Book {
        author: Some(String::new()),
        bookid: Some(String::new()),
        publisher: Some(String::new()),
        publication_year: Some(0),
        copies: Some(0),
        ..titled("Empty")
    })
    .unwrap();
    let books = store.list(BookOrder::Title).unwrap();
    let bare = &books[0];
    assert_eq!(bare.title, "Bare");
    assert_eq!(bare.author, None);
    assert_eq!(bare.bookid, None);
    assert_eq!(bare.publisher, None);
    assert_eq!(bare.publication_year, None);
    assert_eq!(bare.secondary_authors, None);
    let empty = &books[1];
    assert_eq!(empty.author, Some(String::new()));
    assert_eq!(empty.bookid, Some(String::new()));
    assert_eq!(empty.publisher, Some(String::new()));
    assert_eq!(empty.publication_year, Some(0));
    assert_eq!(empty.copies, Some(0));
}

#[test]
fn full_record_round_trip() {
    let store = memory_store();
    let book = Book {
        publication_year: Some(1999),
        publisher: Some("Press".to_string()),
        copies: Some(4),
        ..titled("Whole").author("Writer").isbn("0-306-40615-2")
    };
    let id = store.insert(book.clone()).unwrap();
    let back = store.list(BookOrder::Id).unwrap();
    assert_eq!(back, vec![Book { id: id as u32, ..book }]);
}

#[test]
fn trailing_separator_gives_empty_entry() {
    let cells = row(7, "Tri", text("A;B;"));
    let book = decode_row(&cells).unwrap();
    assert_eq!(book.secondary_authors, Some(vec!["A".to_string(), "B".to_string(), String::new()]));
}

#[test]
fn decode_reads_every_column() {
    let cells = vec![
        StoredValue::Integer(42),
        text("Title"),
        text("Author"),
        text("123"),
        text("ISBN"),
        StoredValue::Null,
        StoredValue::Integer(2001),
        text("Pub"),
        StoredValue::Integer(3),
    ];
    let book = decode_row(&cells).unwrap();
    let expected = Book {
        id: 42,
        publication_year: Some(2001),
        publisher: Some("Pub".to_string()),
        copies: Some(3),
        ..titled("Title").author("Author").isbn("123")
    };
    assert_eq!(book, expected);
}

#[test]
fn decode_refuses_missing_title() {
    let mut cells = row(1, "x", StoredValue::Null);
    cells[1] = StoredValue::Null;
    assert_eq!(decode_row(&cells), Err(StoreError::Decode));
}

#[test]
fn decode_refuses_wrong_kinds_and_ranges() {
    let mut numeric_authors = row(1, "x", StoredValue::Integer(5));
    assert_eq!(decode_row(&numeric_authors), Err(StoreError::Decode));
    numeric_authors[5] = StoredValue::Blob(vec![1, 2]);
    assert_eq!(decode_row(&numeric_authors), Err(StoreError::Decode));
    let mut year = row(1, "x", StoredValue::Null);
    year[6] = StoredValue::Integer(70000);
    assert_eq!(decode_row(&year), Err(StoreError::Decode));
    let mut copies = row(1, "x", StoredValue::Null);
    copies[8] = StoredValue::Integer(-1);
    assert_eq!(decode_row(&copies), Err(StoreError::Decode));
    let bad_utf8 = row(1, "x", StoredValue::Text(vec![0xff, 0xfe]));
    assert_eq!(decode_row(&bad_utf8), Err(StoreError::Decode));
    let big_id = row(1 << 40, "x", StoredValue::Null);
    assert_eq!(decode_row(&big_id), Err(StoreError::Decode));
    let real = row(1, "x", StoredValue::Real);
    assert_eq!(decode_row(&real), Err(StoreError::Decode));
    assert_eq!(decode_row(&vec![StoredValue::Integer(1)]), Err(StoreError::Decode));
}

#[test]
fn decode_rows_fails_on_any_bad_row() {
    let rows = vec![row(1, "ok", StoredValue::Null), row(2, "bad", StoredValue::Integer(3))];
    assert_eq!(decode_rows(&rows), Err(StoreError::Decode));
    assert_eq!(arrange_rows(&rows, BookOrder::Title), Err(StoreError::Decode));
}

#[test]
fn arrange_rows_sorts_decoded_rows() {
    let rows = vec![row(3, "c", StoredValue::Null), row(1, "a", StoredValue::Null), row(2, "b", StoredValue::Null)];
    let books = arrange_rows(&rows, BookOrder::Title).unwrap();
    assert_eq!(books.iter().map(|b| b.id).collect::<Vec<_>>(), vec![1, 2, 3]);
}

#[test]
fn sort_books_keeps_duplicates() {
    let books = vec![titled("b"), titled("a"), titled("b"), titled("a")];
    let sorted = sort_books(books, &BookOrder::Title);
    assert_eq!(titles(&sorted), vec!["a", "a", "b", "b"]);
    assert!(sort_books(vec![], &BookOrder::Id).is_empty());
}

#[test]
fn precedes_compares_keys() {
    let a = Book { id: 1, copies: Some(2), ..titled("a") };
    let b = Book { id: 2, copies: Some(2), ..titled("b") };
    assert!(precedes(&BookOrder::Id, &a, &b));
    assert!(!precedes(&BookOrder::Id, &b, &a));
    assert!(precedes(&BookOrder::Copies, &a, &b));
    assert!(!precedes(&BookOrder::Copies, &b, &a));
    assert!(precedes(&BookOrder::Title, &a, &a));
}

#[test]
fn encode_binds_fields_in_column_order() {
    let book = Book {
        secondary_authors: Some(vec!["X".to_string(), "Y".to_string()]),
        publication_year: Some(2020),
        cover: Some(vec![9]),
        ..titled("T").author("A")
    };
    assert_eq!(
        encode_book(book),
        vec![
            SqlParam::Text("T".to_string()),
            SqlParam::Text("A".to_string()),
            SqlParam::Null,
            SqlParam::Null,
            SqlParam::Text("X;Y".to_string()),
            SqlParam::Integer(2020),
            SqlParam::Null,
            SqlParam::Blob(vec![9]),
            SqlParam::Integer(1),
        ]
    );
}

#[test]
fn open_fails_where_no_directory_exists() {
    let r = BookConnection::from_path(PathBuf::from("/no/such/directory/at/all/store.db"));
    assert!(matches!(r, Err(StoreError::Open)));
}

#[test]
fn query_text_per_ordering() {
    assert_eq!(order_clause(BookOrder::Author), "author ASC, title ASC");
    assert_eq!(order_clause(BookOrder::Copies), "copies DESC, title ASC");
    assert_eq!(order_clause(BookOrder::Id), "id ASC");
    assert_eq!(order_clause(BookOrder::ISBN), "bookid ASC");
    assert_eq!(order_clause(BookOrder::Title), "title ASC");
    assert!(list_query(BookOrder::Id).ends_with("FROM books ORDER BY id ASC"));
}

#[test]
fn builders_set_their_fields() {
    let b = Book::new().author("Ann").isbn("978");
    assert_eq!(b.author, Some("Ann".to_string()));
    assert_eq!(b.bookid, Some("978".to_string()));
    assert_eq!(b.idtype, Some("ISBN".to_string()));
    assert_eq!(b.title, "");
    assert_eq!(Book::default(), Book::new());
    assert_eq!(BookIdentifier::default(), BookIdentifier::Unlisted);
}

#[test]
fn identifier_follows_its_scheme() {
    let isbn = Book::new().isbn("978-0");
    assert_eq!(isbn.identifier(), BookIdentifier::ISBN("978-0".to_string()));
    let other = Book { idtype: Some("LCCN".to_string()), ..Book::new().isbn("2001") };
    assert_eq!(other.identifier(), BookIdentifier::Unlisted);
    assert_eq!(Book::new().identifier(), BookIdentifier::Unlisted);
}

#[test]
fn rowid_becomes_book_id() {
    assert_eq!(book_id_from_rowid(0), Ok(0));
    assert_eq!(book_id_from_rowid(17), Ok(17));
    assert_eq!(book_id_from_rowid(i64::MAX), Ok(i64::MAX as usize));
    assert_eq!(book_id_from_rowid(-1), Err(StoreError::Write));
}

#[test]
fn decode_refuses_missing_copies() {
    let mut cells = row(1, "x", StoredValue::Null);
    cells[8] = StoredValue::Null;
    assert_eq!(decode_row(&cells), Err(StoreError::Decode));
}
