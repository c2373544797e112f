use vstd::prelude::*;

verus! {

/// A book held by the depository. Two books are the same catalog entry
/// exactly when their `isbn_code` fields are equal; title and year carry no
/// identity.
#[derive(Debug)]
pub struct Book {
    pub isbn_code: String,
    pub title: String,
    pub year: i32,
}

impl Book {
    /// Builds a book from already validated fields; construction cannot fail.
    pub fn create(isbn_code: String, title: String, year: i32) -> (b: Book)
        ensures
            b.isbn_code == isbn_code,
            b.title == title,
            b.year == year,
    {
        Book { isbn_code, title, year }
    }
}

impl Clone for Book {
    fn clone(&self) -> (b: Book)
        ensures
            b == *self,
    {
        Book { isbn_code: self.isbn_code.clone(), title: self.title.clone(), year: self.year }
    }
}

} // verus!
