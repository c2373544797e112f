use book_depository::book::Book;
use book_depository::error::DepoError;
use book_depository::item::DepositoryItem;
use book_depository::magazine::Magazine;
use book_depository::reader::{Borrow, Reader};

#[test]
fn reader_creation_keeps_the_name_and_starts_empty() {
    let ann = Reader::create("Ann").unwrap();
    assert_eq!(ann.name, "Ann");
    assert!(ann.books_borrowed.is_empty());
    assert!(ann.magazines_borrowed.is_empty());
}

#[test]
fn reader_creation_rejects_a_blank_name() {
    assert!(matches!(Reader::create(""), Err(DepoError::Validation)));
    assert!(matches!(Reader::create("   "), Err(DepoError::Validation)));
    assert!(matches!(Reader::create("\t\n"), Err(DepoError::Validation)));
}

#[test]
fn borrowing_appends_to_the_matching_list() {
    let mut ann = Reader::create("Ann").unwrap();
    let dune = Book::create("A1".to_owned(), "Dune".to_owned(), 1965);
    let galaxy =
        Magazine::create("M1".to_owned(), "Galaxy".to_owned(), 1950, "Orion".to_owned());

    ann.borrow_book(&dune);
    ann.borrow_magazine(&galaxy);
    ann.borrow_book(&dune);

    assert_eq!(ann.books_borrowed.len(), 2);
    assert_eq!(ann.magazines_borrowed.len(), 1);
    assert_eq!(ann.books_borrowed[1].title, "Dune");
    assert_eq!(ann.magazines_borrowed[0].super_hero, "Orion");
}

#[test]
fn capability_contract_exposes_the_fields() {
    let dune = Book::create("A1".to_owned(), "Dune".to_owned(), 1965);
    assert_eq!(dune.get_isbn_code(), "A1");
    assert_eq!(dune.get_title(), "Dune");
    assert_eq!(dune.get_year(), 1965);

    let galaxy =
        Magazine::create("M1".to_owned(), "Galaxy".to_owned(), 1950, "Orion".to_owned());
    assert_eq!(galaxy.get_isbn_code(), "M1");
    assert_eq!(galaxy.get_title(), "Galaxy");
    assert_eq!(galaxy.get_year(), 1950);
}

#[test]
fn item_clones_keep_every_field() {
    let dune = Book::create("A1".to_owned(), "Dune".to_owned(), 1965);
    let copy = dune.clone();
    assert_eq!(copy.isbn_code, "A1");
    assert_eq!(copy.title, "Dune");
    assert_eq!(copy.year, 1965);

    let mut ann = Reader::create("Ann").unwrap();
    ann.borrow_book(&dune);
    let twin = ann.clone();
    assert_eq!(twin.name, "Ann");
    assert_eq!(twin.books_borrowed.len(), 1);
    assert_eq!(twin.books_borrowed[0].title, "Dune");
}
