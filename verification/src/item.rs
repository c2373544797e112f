use vstd::prelude::*;

use crate::book::Book;
use crate::magazine::Magazine;
use crate::reader::Borrow;
use crate::reader::Reader;

verus! {

/// The capability contract a type must meet to take part in the generic
/// depository operations: it carries an identity code, a title and a year,
/// and it knows which of a reader's borrowed lists is its own.
pub trait DepositoryItem: Sized + Clone {
    /// The identity of the item: two items are the same catalog entry
    /// exactly when their codes are equal.
    spec fn spec_code(self) -> Seq<char>;

    spec fn spec_title(self) -> Seq<char>;

    spec fn spec_year(self) -> int;

    /// The borrowed list of this item kind on a reader.
    spec fn borrowed_of(r: Reader) -> Seq<Self>;

    /// Holds when a borrow of this item kind left the rest of the reader
    /// alone: the name and the borrowed list of the other kind.
    spec fn rest_of_reader_unchanged(r0: Reader, r1: Reader) -> bool;

    fn get_isbn_code(&self) -> (code: &String)
        ensures
            code@ == self.spec_code(),
    ;

    fn get_title(&self) -> (title: &String)
        ensures
            title@ == self.spec_title(),
    ;

    fn get_year(&self) -> (year: i32)
        ensures
            year as int == self.spec_year(),
    ;

    /// Appends this item to its own borrowed list on `reader`, leaving the
    /// rest of the reader unchanged.
    fn borrow_for_reader(&self, reader: &mut Reader)
        ensures
            Self::borrowed_of(*final(reader)) == Self::borrowed_of(*old(reader)).push(*self),
            Self::rest_of_reader_unchanged(*old(reader), *final(reader)),
    ;
}

impl DepositoryItem for Book {
    open spec fn spec_code(self) -> Seq<char> {
        self.isbn_code@
    }

    open spec fn spec_title(self) -> Seq<char> {
        self.title@
    }

    open spec fn spec_year(self) -> int {
        self.year as int
    }

    open spec fn borrowed_of(r: Reader) -> Seq<Book> {
        r.books_borrowed@
    }

    open spec fn rest_of_reader_unchanged(r0: Reader, r1: Reader) -> bool {
        r1.name@ == r0.name@ && r1.magazines_borrowed@ == r0.magazines_borrowed@
    }

    fn get_isbn_code(&self) -> (code: &String) {
        &self.isbn_code
    }

    fn get_title(&self) -> (title: &String) {
        &self.title
    }

    fn get_year(&self) -> (year: i32) {
        self.year
    }

    fn borrow_for_reader(&self, reader: &mut Reader) {
        reader.borrow_book(self);
    }
}

impl DepositoryItem for Magazine {
    open spec fn spec_code(self) -> Seq<char> {
        self.isbn_code@
    }

    open spec fn spec_title(self) -> Seq<char> {
        self.title@
    }

    open spec fn spec_year(self) -> int {
        self.year as int
    }

    open spec fn borrowed_of(r: Reader) -> Seq<Magazine> {
        r.magazines_borrowed@
    }

    open spec fn rest_of_reader_unchanged(r0: Reader, r1: Reader) -> bool {
        r1.name@ == r0.name@ && r1.books_borrowed@ == r0.books_borrowed@
    }

    fn get_isbn_code(&self) -> (code: &String) {
        &self.isbn_code
    }

    fn get_title(&self) -> (title: &String) {
        &self.title
    }

    fn get_year(&self) -> (year: i32) {
        self.year
    }

    fn borrow_for_reader(&self, reader: &mut Reader) {
        reader.borrow_magazine(self);
    }
}

} // verus!
