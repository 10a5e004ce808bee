//! Thread pinning: a handle records the thread that created it and refuses to be used from
//! any other.
//!
//! A thread is named by a `u64` that the caller's runtime assigns, one per thread.

use vstd::prelude::*;

use crate::error::{Error, Result};

verus! {

/// The outcome of using a handle owned by `owner` from thread `current`.
pub open spec fn thread_check(owner: u64, current: u64) -> core::result::Result<(), Error> {
    if owner == current {
        Ok(())
    } else {
        Err(Error::WrongThread)
    }
}

/// Capability token naming the thread a handle was created on.
#[derive(Debug, Clone, Copy, PartialEq, Eq, Structural)]
pub struct ThreadAffinity {
    /// The creating thread.
    pub owner: u64,
}

impl ThreadAffinity {
    /// Pins a new handle to `owner`.
    pub fn pinned_to(owner: u64) -> (r: Self)
        ensures
            r.owner == owner,
    {
        ThreadAffinity { owner }
    }

    /// Succeeds exactly when `current` is the owning thread; otherwise `WrongThread`.
    pub fn ensure_thread(&self, current: u64) -> (r: Result<()>)
        ensures
            r == thread_check(self.owner, current),
    {
        if self.owner == current {
            Ok(())
        } else {
            Err(Error::WrongThread)
        }
    }
}

} // verus!
