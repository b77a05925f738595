//! Why a candidate type code is refused.

use vstd::prelude::*;

verus! {

/// The two ways in which construction of a chunk type fails.
#[derive(Debug, Clone, Copy, PartialEq, Eq, Structural)]
pub enum ValidationError {
    /// At least one byte is outside `A`..=`Z` and `a`..=`z`.
    NotAsciiLetter,
    /// The text is not exactly four bytes long.
    InvalidLength,
}

} // verus!
