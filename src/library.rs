//! The on-device book library.

use vstd::prelude::*;

verus! {

/// Identifier and title of a book.
#[derive(Debug, PartialEq, Eq)]
pub struct BookMetadata {
    /// Unique identifier.
    pub identifier: String,
    /// Display title.
    pub title: String,
}

impl BookMetadata {
    /// Metadata with the given identifier and title.
    pub fn new(identifier: &str, title: &str) -> (r: Self)
        ensures
            r.identifier@ == identifier@,
            r.title@ == title@,
    {
        Self { identifier: identifier.to_owned(), title: title.to_owned() }
    }

    /// A field-for-field copy.
    pub fn duplicate(&self) -> (r: Self)
        ensures
            r.identifier@ == self.identifier@,
            r.title@ == self.title@,
    {
        Self { identifier: self.identifier.clone(), title: self.title.clone() }
    }
}

/// Errors of library lookups.
#[derive(Debug, PartialEq, Eq)]
pub enum LibraryError {
    /// No book has this identifier.
    NotFound(String),
}

/// Finds the first book whose identifier is `id` and returns a copy of it; when none has
/// it, `NotFound` carries `id`.
pub fn find_book(metadata: &[BookMetadata], id: &str) -> (r: Result<BookMetadata, LibraryError>)
    ensures
        match r {
            Ok(b) => exists|i: int|
                0 <= i < metadata@.len() && metadata@[i].identifier@ == id@ && (forall|j: int|
                    0 <= j < i ==> metadata@[j].identifier@ != id@) && b.identifier@
                    == metadata@[i].identifier@ && b.title@ == metadata@[i].title@,
            Err(LibraryError::NotFound(s)) => s@ == id@ && forall|i: int|
                0 <= i < metadata@.len() ==> metadata@[i].identifier@ != id@,
        },
{
    let key = id.to_owned();
    let mut i: usize = 0;
    while i < metadata.len()
        invariant
            key@ == id@,
            i <= metadata@.len(),
            forall|j: int| 0 <= j < i ==> metadata@[j].identifier@ != id@,
        decreases metadata.len() - i,
    {
        if metadata[i].identifier == key {
            return Ok(metadata[i].duplicate());
        }
        i = i + 1;
    }
    Err(LibraryError::NotFound(key))
}

} // verus!
