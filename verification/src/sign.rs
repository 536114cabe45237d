use vstd::prelude::*;

verus! {

/// How a real-valued request field compares with zero.
///
/// `Undefined` stands for a value that is not ordered against zero at all
/// (a not-a-number input): every comparison with zero is false for it.
#[derive(Clone, Copy, Debug, PartialEq, Eq, Structural)]
pub enum Sign {
    Negative,
    Zero,
    Positive,
    Undefined,
}

impl Sign {
    /// The quantity is strictly below zero.
    pub open spec fn below_zero(self) -> bool {
        self == Sign::Negative
    }

    /// The quantity is zero or below.
    pub open spec fn at_most_zero(self) -> bool {
        self == Sign::Negative || self == Sign::Zero
    }

    /// The quantity is strictly above zero.
    pub open spec fn above_zero(self) -> bool {
        self == Sign::Positive
    }

    /// Tests `self < 0`.
    pub fn is_negative(self) -> (r: bool)
        ensures
            r == self.below_zero(),
    {
        match self {
            Sign::Negative => true,
            _ => false,
        }
    }

    /// Tests `self <= 0`.
    pub fn is_non_positive(self) -> (r: bool)
        ensures
            r == self.at_most_zero(),
    {
        match self {
            Sign::Negative => true,
            Sign::Zero => true,
            _ => false,
        }
    }

    /// Tests `self > 0`.
    pub fn is_positive(self) -> (r: bool)
        ensures
            r == self.above_zero(),
    {
        match self {
            Sign::Positive => true,
            _ => false,
        }
    }
}

} // verus!
