//! The error taxonomy of the core.
//!
//! Out-of-bounds indices and storage failures are always returned as typed
//! values, never raised as panics: the verified functions of this crate do
//! not panic.

use vstd::prelude::*;

verus! {

/// Failure of a document mutation: the given list index was not within the
/// current bounds of the section it addresses.
#[derive(Clone, Copy, Debug, PartialEq, Eq, Structural)]
pub enum DocumentError {
    IndexOutOfBounds,
}

/// Failure of the persistence port.
#[derive(Clone, Copy, Debug, PartialEq, Eq, Structural)]
pub enum StorageError {
    /// No snapshot exists in storage.
    NotFound,
    /// The underlying store could not be reached.
    Unavailable,
    /// A stored snapshot could not be decoded as a document.
    SerializationFailure,
    /// The underlying store rejected a write.
    WriteFailure,
}

impl DocumentError {
    /// The failure as readable text.
    pub open spec fn spec_message(self) -> Seq<char> {
        "index out of bounds"@
    }

    /// Returns this failure as readable text.
    pub fn message(&self) -> (r: &'static str)
        ensures
            r@ == self.spec_message(),
    {
        match self {
            DocumentError::IndexOutOfBounds => "index out of bounds",
        }
    }
}

impl StorageError {
    /// The failure as readable text.
    pub open spec fn spec_message(self) -> Seq<char> {
        match self {
            StorageError::NotFound => "no stored resume was found"@,
            StorageError::Unavailable => "storage is unavailable"@,
            StorageError::SerializationFailure => "the stored resume could not be decoded"@,
            StorageError::WriteFailure => "storage rejected the write"@,
        }
    }

    /// Returns this failure as readable text.
    pub fn message(&self) -> (r: &'static str)
        ensures
            r@ == self.spec_message(),
    {
        match self {
            StorageError::NotFound => "no stored resume was found",
            StorageError::Unavailable => "storage is unavailable",
            StorageError::SerializationFailure => "the stored resume could not be decoded",
            StorageError::WriteFailure => "storage rejected the write",
        }
    }
}

} // verus!
