//! The wrapper's error taxonomy and the translation of native status codes into it.

use vstd::prelude::*;

use crate::native::{
    CreResult, CRE_RESULT_INTERNAL_ERROR, CRE_RESULT_INVALID_ARGUMENT, CRE_RESULT_OK,
    CRE_RESULT_UNSUPPORTED,
};

verus! {

/// Declares `std::io::Error` so that `Error::Io` can carry it. Nothing here looks inside
/// such a value; it is only passed through.
#[verifier::external_type_specification]
#[verifier::external_body]
pub struct ExIoError(std::io::Error);

/// Errors surfaced by the wrapper layer.
#[derive(Debug)]
pub enum Error {
    /// The platform has no native bindings compiled in.
    UnsupportedTarget,
    /// The native layer reported success but handed back a null handle.
    NullHandle,
    /// A handle was used from a thread other than the one that created it.
    WrongThread,
    /// The native layer rejected an argument.
    InvalidArgument,
    /// The native layer does not support the operation.
    Unsupported,
    /// The native layer failed internally, or reported a code this wrapper does not know.
    InternalError,
    /// A page index was not below the number of laid-out pages.
    PageOutOfBounds { index: u32, total: u32 },
    /// A canvas buffer was shorter than `stride * height`.
    SurfaceTooSmall { expected: usize, actual: usize },
    /// A path or string could not be put into the form the native call expects.
    Ffi(String),
    /// Writing the input bytes to the backing file failed.
    Io(std::io::Error),
}

/// Result of the wrapper's operations.
pub type Result<T> = core::result::Result<T, Error>;

/// The meaning of a native status code: success, or the error it stands for.
pub open spec fn status_outcome(status: CreResult) -> core::result::Result<(), Error> {
    if status == CRE_RESULT_OK {
        Ok(())
    } else if status == CRE_RESULT_UNSUPPORTED {
        Err(Error::Unsupported)
    } else if status == CRE_RESULT_INVALID_ARGUMENT {
        Err(Error::InvalidArgument)
    } else {
        Err(Error::InternalError)
    }
}

/// Translates a native status code. Every code the engine defines has its own outcome; any
/// other code is treated as an internal error.
pub fn map_status(status: CreResult) -> (r: Result<()>)
    ensures
        r == status_outcome(status),
        r is Ok <==> status == CRE_RESULT_OK,
        status == CRE_RESULT_UNSUPPORTED ==> r == Err::<(), Error>(Error::Unsupported),
        status == CRE_RESULT_INVALID_ARGUMENT ==> r == Err::<(), Error>(Error::InvalidArgument),
        status == CRE_RESULT_INTERNAL_ERROR ==> r == Err::<(), Error>(Error::InternalError),
        status != CRE_RESULT_OK && status != CRE_RESULT_UNSUPPORTED && status
            != CRE_RESULT_INVALID_ARGUMENT ==> r == Err::<(), Error>(Error::InternalError),
{
    if status == CRE_RESULT_OK {
        Ok(())
    } else if status == CRE_RESULT_UNSUPPORTED {
        Err(Error::Unsupported)
    } else if status == CRE_RESULT_INVALID_ARGUMENT {
        Err(Error::InvalidArgument)
    } else if status == CRE_RESULT_INTERNAL_ERROR {
        Err(Error::InternalError)
    } else {
        Err(Error::InternalError)
    }
}

} // verus!
