//! The movie record and its mathematical model.

use vstd::prelude::*;

verus! {

/// A movie record.
///
/// `id` is the key under which the store holds the record.  A record handed
/// to the store for creation may carry any `id`: the store replaces it.
#[derive(Debug)]
pub struct Movie {
    pub id: String,
    pub name: String,
    pub year: u16,
    pub was_good: bool,
}

/// What a [`Movie`] is, with its strings as sequences of characters.
pub ghost struct MovieView {
    pub id: Seq<char>,
    pub name: Seq<char>,
    pub year: u16,
    pub was_good: bool,
}

impl MovieView {
    /// The same record under the identifier `id`.
    pub open spec fn with_id(self, id: Seq<char>) -> MovieView {
        MovieView { id, name: self.name, year: self.year, was_good: self.was_good }
    }

    /// Two records agree on everything a caller supplies: all fields but `id`.
    pub open spec fn same_content(self, other: MovieView) -> bool {
        &&& self.name == other.name
        &&& self.year == other.year
        &&& self.was_good == other.was_good
    }
}

impl View for Movie {
    type V = MovieView;

    open spec fn view(&self) -> MovieView {
        MovieView { id: self.id@, name: self.name@, year: self.year, was_good: self.was_good }
    }
}

impl Clone for Movie {
    fn clone(&self) -> (copy: Self)
        ensures
            copy@ == self@,
    {
        Movie {
            id: self.id.clone(),
            name: self.name.clone(),
            year: self.year,
            was_good: self.was_good,
        }
    }
}

impl Movie {
    /// The record with its identifier replaced by `id`.
    pub fn with_id(self, id: String) -> (stored: Movie)
        ensures
            stored@ == self@.with_id(id@),
    {
        Movie { id, name: self.name, year: self.year, was_good: self.was_good }
    }
}

} // verus!
