//! Verified core of a thread-pinned wrapper around a native document-rendering engine,
//! together with small companion modules for encoding, library lookup, device sync and the
//! XTC container.

pub mod native;
pub mod error;
pub mod canvas;
pub mod layout;
pub mod affinity;
pub mod document;
pub mod encoder;
pub mod library;
pub mod sync;
pub mod xtc;

pub use error::Error;
