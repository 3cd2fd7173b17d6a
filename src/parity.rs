use vstd::prelude::*;

use crate::error::{compare_by_equality, equality_outcome, CompareOp, Error};

verus! {

/// The stereo configuration at an atom or a double bond.
#[derive(Clone, Copy, Debug, PartialEq, Eq, Hash, Structural)]
pub enum Parity {
    Positive,
    Negative,
}

/// A parity as callers see it.
#[derive(Clone, Copy, Debug, PartialEq, Eq, Hash, Structural)]
pub struct PyParity {
    pub parity: Parity,
}

impl PyParity {
    /// Positive for `true`, negative for `false`.
    pub fn new(value: bool) -> (r: PyParity)
        ensures
            r.parity == (if value { Parity::Positive } else { Parity::Negative }),
    {
        let parity = if value { Parity::Positive } else { Parity::Negative };
        PyParity { parity }
    }

    pub fn from_parity(parity: Parity) -> (r: PyParity)
        ensures
            r.parity == parity,
    {
        PyParity { parity }
    }

    /// +1 for positive, -1 for negative.
    pub fn hash_value(&self) -> (r: isize)
        ensures
            r == (if self.parity == Parity::Positive { 1int } else { -1int }),
    {
        match self.parity {
            Parity::Positive => 1,
            Parity::Negative => -1,
        }
    }

    /// Equality and inequality; every other comparison fails.
    pub fn richcmp(&self, other: &PyParity, op: CompareOp) -> (r: Result<bool, Error>)
        ensures
            r == equality_outcome(self.parity == other.parity, op),
    {
        compare_by_equality(self.parity == other.parity, op)
    }
}

} // verus!
