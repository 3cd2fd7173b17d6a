use vstd::prelude::*;

use crate::error::{compare_by_equality, equality_outcome, CompareOp, Error};

verus! {

/// The order of a bond: none, single, double or triple.
#[derive(Clone, Copy, Debug, PartialEq, Eq, Hash, Structural)]
pub enum BondOrder {
    Zero,
    Single,
    Double,
    Triple,
}

impl BondOrder {
    /// The order as an integer from 0 to 3.
    pub open spec fn spec_value(self) -> u8 {
        match self {
            BondOrder::Zero => 0,
            BondOrder::Single => 1,
            BondOrder::Double => 2,
            BondOrder::Triple => 3,
        }
    }
}

/// The bond order whose integer is `n`, if `n` is at most 3.
pub open spec fn bond_order_of(n: int) -> Option<BondOrder> {
    if n == 0 {
        Some(BondOrder::Zero)
    } else if n == 1 {
        Some(BondOrder::Single)
    } else if n == 2 {
        Some(BondOrder::Double)
    } else if n == 3 {
        Some(BondOrder::Triple)
    } else {
        None
    }
}

/// A bond order as callers see it.
#[derive(Clone, Copy, Debug, PartialEq, Eq, Hash, Structural)]
pub struct PyBondOrder {
    pub bond_order: BondOrder,
}

impl PyBondOrder {
    /// The bond order of integer `order`; fails unless `order` is in 0..=3.
    pub fn new(order: u8) -> (r: Result<PyBondOrder, Error>)
        ensures
            r == match bond_order_of(order as int) {
                Some(b) => Ok(PyBondOrder { bond_order: b }),
                None => Err(Error::InvalidBondOrderValue),
            },
            r is Ok <==> order <= 3,
    {
        let bond_order = match order {
            0 => BondOrder::Zero,
            1 => BondOrder::Single,
            2 => BondOrder::Double,
            3 => BondOrder::Triple,
            _ => return Err(Error::InvalidBondOrderValue),
        };
        Ok(PyBondOrder { bond_order })
    }

    pub fn from_bond_order(bond_order: BondOrder) -> (r: PyBondOrder)
        ensures
            r.bond_order == bond_order,
    {
        PyBondOrder { bond_order }
    }

    /// The order as an integer from 0 to 3.
    pub fn as_int(&self) -> (r: u8)
        ensures
            r == self.bond_order.spec_value(),
            r <= 3,
    {
        match self.bond_order {
            BondOrder::Zero => 0,
            BondOrder::Single => 1,
            BondOrder::Double => 2,
            BondOrder::Triple => 3,
        }
    }

    /// False for the zero order, which marks the absence of a bond; true otherwise.
    pub fn is_truthy(&self) -> (r: bool)
        ensures
            r == (self.bond_order != BondOrder::Zero),
    {
        match self.bond_order {
            BondOrder::Zero => false,
            _ => true,
        }
    }

    /// A hash that is the order's integer.
    pub fn hash_value(&self) -> (r: isize)
        ensures
            r == self.bond_order.spec_value(),
    {
        self.as_int() as isize
    }

    /// Equality and inequality; every other comparison fails.
    pub fn richcmp(&self, other: &PyBondOrder, op: CompareOp) -> (r: Result<bool, Error>)
        ensures
            r == equality_outcome(self.bond_order == other.bond_order, op),
    {
        compare_by_equality(self.bond_order == other.bond_order, op)
    }
}

/// Reading back the integer of a bond order built from an integer gives that integer,
/// and exactly the integers 0 to 3 build one.
pub proof fn lemma_bond_order_round_trip(n: u8)
    ensures
        n <= 3 ==> (bond_order_of(n as int) matches Some(b) && b.spec_value() == n),
        n > 3 ==> bond_order_of(n as int) is None,
{
}

} // verus!
