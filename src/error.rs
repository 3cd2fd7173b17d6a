use vstd::prelude::*;

verus! {

/// Where a misplaced stereo parity was declared.
#[derive(Clone, Copy, Debug, PartialEq, Eq, Structural)]
pub enum Site {
    /// The atom at this position of the atom list.
    Atom(usize),
    /// The bond at this position of the bond list.
    Bond(usize),
}

/// Every failure that the library reports.
#[derive(Clone, Copy, Debug, PartialEq, Eq, Structural)]
pub enum Error {
    /// An atomic number outside 1..=118.
    InvalidAtomicNumber,
    /// A string that is none of the 118 element symbols.
    UnknownElementSymbol,
    /// A bond order outside 0..=3.
    InvalidBondOrderValue,
    /// A bond names this atom as both of its ends.
    SelfBond(usize),
    /// The bond at this position names an atom that the atom list lacks.
    DanglingBondEndpoint(usize),
    /// The bond at this position joins a pair that an earlier bond joins.
    DuplicateBond(usize),
    /// The atom at this position carries more bonds and hydrogens than its valence allows.
    HypervalentAtom(usize),
    /// A parity stands where no stereo configuration can exist.
    MisplacedBond(Site),
    /// The atom at this position declares a mass number its element cannot have.
    ImpossibleIsotope(usize),
    /// A query named an atom that the molecule lacks.
    NodeNotFound(usize),
    /// A query named a pair of atoms that no bond joins.
    EdgeNotFound(usize, usize),
    /// A comparison other than equality or inequality was asked for.
    UnsupportedOperation,
}

/// The comparisons a caller may ask of the enumerations.
#[derive(Clone, Copy, Debug, PartialEq, Eq, Structural)]
pub enum CompareOp {
    Lt,
    Le,
    Eq,
    Ne,
    Gt,
    Ge,
}

/// The outcome of a comparison that supports only `Eq` and `Ne`.
pub open spec fn equality_outcome(same: bool, op: CompareOp) -> Result<bool, Error> {
    match op {
        CompareOp::Eq => Ok(same),
        CompareOp::Ne => Ok(!same),
        _ => Err(Error::UnsupportedOperation),
    }
}

/// Answers `op` between two values whose equality is `same`.
pub fn compare_by_equality(same: bool, op: CompareOp) -> (r: Result<bool, Error>)
    ensures
        r == equality_outcome(same, op),
{
    match op {
        CompareOp::Eq => Ok(same),
        CompareOp::Ne => Ok(!same),
        _ => Err(Error::UnsupportedOperation),
    }
}

} // verus!
