use booklib::book::Book;
use booklib::codec::{join_entries, join_with, split_entries};
use booklib::database::BookOrder;
use booklib::rows::StoreError;
use booklib::subcommands::{book_cells, decimal, header_cells, lookup_url, order_from_flags, SubCommandError};

fn strings(v: &[&str]) -> Vec<String> {
    v.iter().map(|s| s.to_string()).collect()
}

#[test]
fn split_keeps_empty_entries() {
    assert_eq!(split_entries("A;B;"), strings(&["A", "B", ""]));
    assert_eq!(split_entries(""), strings(&[""]));
    assert_eq!(split_entries(";"), strings(&["", ""]));
    assert_eq!(split_entries("Doe, Jane;Roe, Richard"), strings(&["Doe, Jane", "Roe, Richard"]));
}

#[test]
fn join_then_split_round_trips() {
    let parts = strings(&["Doe, Jane", "Roe, Richard"]);
    let joined = join_entries(&parts);
    assert_eq!(joined, "Doe, Jane;Roe, Richard");
    assert_eq!(split_entries(&joined), parts);
    assert_eq!(join_entries(&vec![]), "");
    assert_eq!(join_with(&strings(&["a", "b", "c"]), ", "), "a, b, c");
}

#[test]
fn exit_codes_are_distinct() {
    let store = SubCommandError::RusqliteError(StoreError::Query);
    assert_eq!(store.exit_code(), 102);
    assert_eq!(usize::from(SubCommandError::from(StoreError::Open)), 102);
    let json = serde_json::from_str::<serde_json::Value>("{").unwrap_err();
    let parse = SubCommandError::from(json);
    assert_eq!(parse.exit_code(), 103);
    assert_eq!(usize::from(parse), 103);
}

#[test]
fn flags_pick_the_ordering() {
    assert_eq!(order_from_flags(false, false, false, false), BookOrder::Title);
    assert_eq!(order_from_flags(true, true, true, true), BookOrder::Id);
    assert_eq!(order_from_flags(false, true, true, false), BookOrder::ISBN);
    assert_eq!(order_from_flags(false, false, true, true), BookOrder::Copies);
    assert_eq!(order_from_flags(false, false, false, true), BookOrder::Author);
}

#[test]
fn lookup_url_appends_isbn() {
    assert_eq!(lookup_url("9780306406157"), "https://www.googleapis.com/books/v1/volumes?q=isbn:9780306406157");
}

#[test]
fn decimal_writes_digits() {
    assert_eq!(decimal(0), "0");
    assert_eq!(decimal(7), "7");
    assert_eq!(decimal(1066), "1066");
    assert_eq!(decimal(u64::MAX), "18446744073709551615");
}

#[test]
fn cells_show_labels_for_absent_fields() {
    let b = Book { id: 12, title: "T".to_string(), ..Book::new() };
    assert_eq!(book_cells(&b, false), strings(&["12", "T", "[Author Unknown]", "[no bookid]"]));
    assert_eq!(
        book_cells(&b, true),
        strings(&["12", "T", "[Author Unknown]", "[no bookid]", "-", "[unknown]", "[publisher unknown]", "1"])
    );
}

#[test]
fn cells_show_present_fields() {
    let b = Book {
        id: 3,
        title: "T".to_string(),
        secondary_authors: Some(strings(&["A", "B"])),
        publication_year: Some(1984),
        publisher: Some("P".to_string()),
        copies: Some(2),
        ..Book::new().author("W").isbn("9")
    };
    assert_eq!(book_cells(&b, true), strings(&["3", "T", "W", "9", "A, B", "1984", "P", "2"]));
}

#[test]
fn header_matches_cells() {
    assert_eq!(header_cells(false), strings(&["ID", "TITLE", "AUTHOR", "ISBN"]));
    assert_eq!(header_cells(true).len(), 8);
    assert_eq!(header_cells(true)[7], "COPIES");
}
