use vstd::prelude::*;

verus! {

/// A magazine held by the depository. As with books, the `isbn_code` alone
/// is the catalog identity; `super_hero` names the featured character.
#[derive(Debug)]
pub struct Magazine {
    pub isbn_code: String,
    pub title: String,
    pub year: i32,
    pub super_hero: String,
}

impl Magazine {
    /// Builds a magazine from already validated fields; construction cannot fail.
    pub fn create(isbn_code: String, title: String, year: i32, super_hero: String) -> (m:
        Magazine)
        ensures
            m.isbn_code == isbn_code,
            m.title == title,
            m.year == year,
            m.super_hero == super_hero,
    {
        Magazine { isbn_code, title, year, super_hero }
    }
}

impl Clone for Magazine {
    fn clone(&self) -> (m: Magazine)
        ensures
            m == *self,
    {
        Magazine {
            isbn_code: self.isbn_code.clone(),
            title: self.title.clone(),
            year: self.year,
            super_hero: self.super_hero.clone(),
        }
    }
}

} // verus!
