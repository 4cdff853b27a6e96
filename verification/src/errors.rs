//! The ways a registration request can be rejected.

use vstd::prelude::*;

verus! {

/// Every failure a registration can report. All of them are detected
/// during validation, before any mutation of the registry, so a request
/// that fails with one of these leaves the store exactly as it was.
#[derive(Clone, Copy, PartialEq, Eq, Structural, Debug)]
pub enum RegistrationError {
    /// The identifier is empty.
    IdentifierMissing,
    /// The identifier exceeds the identifier length bound.
    IdentifierTooLong,
    /// The primary identifier is already registered.
    IdentifierExists,
    /// The metadata sequence exceeds the entry-count bound.
    TooManyProperties,
    /// A metadata entry's name exceeds its length bound.
    InvalidName,
    /// A metadata entry's artist exceeds its length bound.
    InvalidArtist,
    /// A metadata entry's composer exceeds its length bound.
    InvalidComposer,
    /// A metadata entry's lyricist exceeds its length bound.
    InvalidLyricist,
    /// A metadata entry's year exceeds its length bound.
    InvalidYear,
}

} // verus!
