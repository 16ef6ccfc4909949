//! The sign of a measured quantity, as the indicators compare it against zero.
use vstd::prelude::*;

verus! {

/// Where a value stands with respect to zero. A value that compares neither below,
/// above nor equal to zero (not a number) is `Unordered`.
#[derive(Debug, Clone, Copy, PartialEq, Eq, Structural)]
pub enum Sign {
    Negative,
    Zero,
    Positive,
    Unordered,
}

impl Sign {
    /// The value is at most zero (`<= 0`).
    pub open spec fn spec_non_positive(self) -> bool {
        self == Sign::Negative || self == Sign::Zero
    }

    /// The value is at least zero (`>= 0`).
    pub open spec fn spec_non_negative(self) -> bool {
        self == Sign::Positive || self == Sign::Zero
    }
}

} // verus!
