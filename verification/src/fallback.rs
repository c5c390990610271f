//! Fallback behavior for encoding and concatenation: try the first
//! collaborator, and if it fails, try the second.

use vstd::prelude::*;

verus! {

/// An error combining the failures of both operations.
#[derive(Debug, Clone, Copy, PartialEq, Eq)]
pub struct FallbackError<T, U> {
    /// The first operation's failure.
    pub first: T,
    /// The second operation's failure.
    pub second: U,
}

impl<T, U> FallbackError<T, U> {
    /// Creates a new [`FallbackError`].
    pub fn new(first: T, second: U) -> (r: Self)
        ensures
            r == (FallbackError { first, second }),
    {
        FallbackError { first, second }
    }
}

/// A wrapper that tries the first operation, and if it fails, tries
/// the second.
#[derive(Debug, Clone, Copy, PartialEq, Eq)]
pub struct Fallback<T, U> {
    /// Tried first.
    pub first: T,
    /// Tried when the first fails.
    pub second: U,
}

impl<T, U> Fallback<T, U> {
    /// Creates a new [`Fallback`].
    pub fn new(first: T, second: U) -> (r: Self)
        ensures
            r == (Fallback { first, second }),
    {
        Fallback { first, second }
    }
}

} // verus!
