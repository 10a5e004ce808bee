//! The XTC book container.

use vstd::prelude::*;

verus! {

/// Errors of the XTC writer.
#[derive(Debug, Clone, Copy, PartialEq, Eq, Structural)]
pub enum XtcError {
    /// Writing XTC is not implemented yet.
    NotImplemented,
}

/// Metadata stored in an XTC container.
#[derive(Debug, PartialEq, Eq)]
pub struct XtcMetadata {
    /// Book title.
    pub title: String,
}

impl XtcMetadata {
    /// Metadata with the given title.
    pub fn new(title: &str) -> (r: Self)
        ensures
            r.title@ == title@,
    {
        Self { title: title.to_owned() }
    }
}

/// Writes an XTC container. Not implemented yet: always `NotImplemented`.
pub fn placeholder_encode(metadata: &XtcMetadata) -> (r: Result<(), XtcError>)
    ensures
        r == Err::<(), XtcError>(XtcError::NotImplemented),
{
    Err(XtcError::NotImplemented)
}

} // verus!
