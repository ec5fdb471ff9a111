//! The typed failures an entry point can surface. Every failure aborts the
//! whole operation and leaves the state untouched.

use vstd::prelude::*;

verus! {

/// Why an entry point refused to run.
#[derive(Clone, Copy, Debug, PartialEq, Eq, Structural)]
pub enum UnfairDaoError {
    /// A record with the same derived key already exists (a second
    /// registration, a duplicate proposal title, a double vote).
    AlreadyExists,
    /// A referenced member or proposal does not exist.
    NotFound,
    /// The voter's `fair_score` is not strictly inside the proposal's
    /// `(score_threshold, score_limit)` window.
    Unqualified,
    /// A tally counter increment would overflow its 32-bit type.
    CountOutOfRange,
    /// A variable-length field exceeds its declared maximum byte length;
    /// nothing is ever silently truncated.
    TooLong,
}

} // verus!
