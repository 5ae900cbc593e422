use vstd::prelude::*;

verus! {

/// The errors the shortener hands to its caller.
#[derive(Debug, Clone, PartialEq, Eq)]
pub enum AppError {
    /// The input is not a well-formed absolute URL.
    URLParseError,
    /// No mapping is stored under the requested identifier.
    NotFoundError,
    /// The repository failed; the message is the repository's own.
    StorageError(String),
}

} // verus!
