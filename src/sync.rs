//! Plans for copying books to a device.

use vstd::prelude::*;

verus! {

/// A plan to copy `books` to `target`.
#[derive(Debug, PartialEq, Eq)]
pub struct SyncPlan {
    /// Destination on the device.
    pub target: String,
    /// Books to copy, in order.
    pub books: Vec<String>,
}

/// Errors of sync planning.
#[derive(Debug, Clone, Copy, PartialEq, Eq, Structural)]
pub enum SyncError {
    /// No books were queued.
    Empty,
}

/// Builds a plan to copy `books` to `target`; an empty list of books is refused.
pub fn build_sync_plan(target: &str, books: Vec<String>) -> (r: Result<SyncPlan, SyncError>)
    ensures
        books@.len() == 0 ==> r == Err::<SyncPlan, SyncError>(SyncError::Empty),
        books@.len() > 0 ==> (r matches Ok(p) && p.target@ == target@ && p.books@ == books@),
{
    if books.len() == 0 {
        Err(SyncError::Empty)
    } else {
        Ok(SyncPlan { target: target.to_owned(), books })
    }
}

} // verus!
