use vstd::prelude::*;

use crate::book::Book;
use crate::error::DepoError;
use crate::magazine::Magazine;
use crate::text::trim_of;
use crate::text::trimmed;

verus! {

/// A registered borrower. The `name` is the lookup key (compared
/// case-insensitively by the depository); the two lists hold the items the
/// reader has borrowed, in the order they were borrowed.
#[derive(Debug)]
pub struct Reader {
    pub name: String,
    pub books_borrowed: Vec<Book>,
    pub magazines_borrowed: Vec<Magazine>,
}

impl Reader {
    /// Builds a reader with empty borrowed lists. A name that is empty once
    /// trimmed is rejected with `DepoError::Validation`; any other name is
    /// stored as given.
    pub fn create(name: &str) -> (r: Result<Reader, DepoError>)
        ensures
            trim_of(name@).len() == 0 ==> r == Err::<Reader, DepoError>(DepoError::Validation),
            trim_of(name@).len() > 0 ==> {
                &&& r is Ok
                &&& r->Ok_0.name@ == name@
                &&& r->Ok_0.books_borrowed@ == Seq::<Book>::empty()
                &&& r->Ok_0.magazines_borrowed@ == Seq::<Magazine>::empty()
            },
    {
        let cleaned = trimmed(name);
        if cleaned.as_str().is_empty() {
            Err(DepoError::Validation)
        } else {
            Ok(
                Reader {
                    name: name.to_owned(),
                    books_borrowed: Vec::new(),
                    magazines_borrowed: Vec::new(),
                },
            )
        }
    }
}

impl Clone for Reader {
    fn clone(&self) -> (r: Reader)
        ensures
            r.name@ == self.name@,
            r.books_borrowed@ == self.books_borrowed@,
            r.magazines_borrowed@ == self.magazines_borrowed@,
    {
        let books = self.books_borrowed.clone();
        let magazines = self.magazines_borrowed.clone();
        proof {
            assert forall|i: int| 0 <= i < self.books_borrowed@.len() implies books@[i]
                == self.books_borrowed@[i] by {
                assert(cloned(self.books_borrowed@[i], books@[i]));
            }
            assert(books@ =~= self.books_borrowed@);
            assert forall|i: int| 0 <= i < self.magazines_borrowed@.len() implies magazines@[i]
                == self.magazines_borrowed@[i] by {
                assert(cloned(self.magazines_borrowed@[i], magazines@[i]));
            }
            assert(magazines@ =~= self.magazines_borrowed@);
        }
        Reader { name: self.name.clone(), books_borrowed: books, magazines_borrowed: magazines }
    }
}

/// The borrowing capability of a reader: each kind of catalog item is
/// appended to the list of its own kind, leaving the name and the other list
/// untouched.
pub trait Borrow {
    spec fn spec_name(self) -> Seq<char>;

    spec fn spec_books(self) -> Seq<Book>;

    spec fn spec_magazines(self) -> Seq<Magazine>;

    fn borrow_book(&mut self, book: &Book)
        ensures
            final(self).spec_books() == old(self).spec_books().push(*book),
            final(self).spec_magazines() == old(self).spec_magazines(),
            final(self).spec_name() == old(self).spec_name(),
    ;

    fn borrow_magazine(&mut self, magazine: &Magazine)
        ensures
            final(self).spec_magazines() == old(self).spec_magazines().push(*magazine),
            final(self).spec_books() == old(self).spec_books(),
            final(self).spec_name() == old(self).spec_name(),
    ;
}

impl Borrow for Reader {
    open spec fn spec_name(self) -> Seq<char> {
        self.name@
    }

    open spec fn spec_books(self) -> Seq<Book> {
        self.books_borrowed@
    }

    open spec fn spec_magazines(self) -> Seq<Magazine> {
        self.magazines_borrowed@
    }

    fn borrow_book(&mut self, book: &Book) {
        self.books_borrowed.push(book.clone());
    }

    fn borrow_magazine(&mut self, magazine: &Magazine) {
        self.magazines_borrowed.push(magazine.clone());
    }
}

} // verus!
