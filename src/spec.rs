use vstd::prelude::*;

use crate::bond_order::PyBondOrder;
use crate::element::PyElement;
use crate::error::Error;
use crate::parity::PyParity;

verus! {

/// One atom as a caller describes it, before any check against its neighbors.
#[derive(Clone, Copy, Debug, PartialEq, Eq, Structural)]
pub struct PyAtomSpec {
    pub element: PyElement,
    /// Implicit hydrogens attached to the atom.
    pub hydrogens: u8,
    /// Ionic charge.
    pub ion: i8,
    /// Mass number, where one is declared.
    pub isotope: Option<u16>,
    /// Tetrahedral configuration, where one is declared.
    pub parity: Option<PyParity>,
}

impl PyAtomSpec {
    pub fn new(
        element: PyElement,
        hydrogens: u8,
        ion: i8,
        isotope: Option<u16>,
        parity: Option<PyParity>,
    ) -> (r: PyAtomSpec)
        ensures
            r == (PyAtomSpec { element, hydrogens, ion, isotope, parity }),
    {
        PyAtomSpec { element, hydrogens, ion, isotope, parity }
    }
}

/// One bond as a caller describes it: positions of its two atoms in the atom list.
#[derive(Clone, Copy, Debug, PartialEq, Eq, Structural)]
pub struct PyBondSpec {
    pub sid: usize,
    pub tid: usize,
    pub order: PyBondOrder,
    /// Double-bond configuration, where one is declared.
    pub parity: Option<PyParity>,
}

impl PyBondSpec {
    /// A bond between two distinct atoms; naming one atom twice fails.
    pub fn new(sid: usize, tid: usize, order: PyBondOrder, parity: Option<PyParity>) -> (r: Result<
        PyBondSpec,
        Error,
    >)
        ensures
            sid == tid ==> r == Err::<PyBondSpec, Error>(Error::SelfBond(sid)),
            sid != tid ==> r == Ok::<PyBondSpec, Error>(PyBondSpec { sid, tid, order, parity }),
    {
        if sid == tid {
            return Err(Error::SelfBond(sid));
        }
        Ok(PyBondSpec { sid, tid, order, parity })
    }
}

} // verus!
