//! The failure value that flows unchanged through every adapter.
use vstd::prelude::*;

verus! {

/// An opaque failure surfaced by a backend; adapters never inspect it.
#[derive(Debug, Clone, PartialEq, Eq)]
pub enum Error {
    /// The backend's I/O failed, with the backend's own code.
    Io { code: i32 },
    /// The operation is not offered by this backend.
    Unsupported,
    /// The path names no entry.
    NotFound,
    /// An entry already exists at the path.
    AlreadyExists,
    /// Any other failure, described by the backend.
    Other { message: String },
}

} // verus!
