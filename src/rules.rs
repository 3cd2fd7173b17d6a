use vstd::prelude::*;

use crate::bond_order::BondOrder;
use crate::element::Element;
use crate::error::{Error, Site};
use crate::graph::incident;
use crate::spec::{PyAtomSpec, PyBondSpec};

verus! {

/// The bonds as pairs of atom positions, in list order.
pub open spec fn pairs(bonds: Seq<PyBondSpec>) -> Seq<(usize, usize)> {
    bonds.map_values(|b: PyBondSpec| (b.sid, b.tid))
}

/// How many bonds reach atom `a`.
pub open spec fn degree_in(bonds: Seq<PyBondSpec>, a: usize) -> nat {
    incident(pairs(bonds), a).len()
}

/// The sum of the orders of the bonds that reach atom `a`.
pub open spec fn bond_sum(bonds: Seq<PyBondSpec>, a: usize) -> nat
    decreases bonds.len(),
{
    if bonds.len() == 0 {
        0
    } else {
        let b = bonds.last();
        bond_sum(bonds.drop_last(), a) + if b.sid == a || b.tid == a {
            b.order.bond_order.spec_value() as nat
        } else {
            0
        }
    }
}

/// How many bonds (hydrogens included) an atom of element `e` with charge `charge`
/// may form. With `v` its valence electrons less the charge, an element with a
/// closed shell of `s` electrons may form `min(v, s - v)` bonds, a d- or f-block
/// metal `v`; never fewer than none.
pub open spec fn capacity(e: Element, charge: int) -> int {
    let v = e.spec_valence_electrons() as int - charge;
    let c = match e.spec_closed_shell() {
        Some(s) => if v <= s - v {
            v
        } else {
            s - v
        },
        None => v,
    };
    if c < 0 {
        0
    } else {
        c
    }
}

/// A mass number is plausible for an element of atomic number `z` when it is at
/// least `z` (no fewer nucleons than protons) and at most `3 * z + 4`.
pub open spec fn isotope_plausible(e: Element, mass: int) -> bool {
    let z = e.spec_atomic_number() as int;
    z <= mass <= 3 * z + 4
}

/// An atom can carry a tetrahedral parity when it has three distinct
/// substituents: three neighbors, or two and an implicit hydrogen (a second
/// hydrogen would be interchangeable with the first).
pub open spec fn atom_parity_allowed(degree: int, hydrogens: int) -> bool {
    degree >= 3 || (degree == 2 && hydrogens >= 1)
}

/// A bond can carry a cis/trans parity when it is double and each end has a
/// neighbor besides the other end.
pub open spec fn bond_parity_allowed(order: BondOrder, source_degree: int, target_degree: int) -> bool {
    order == BondOrder::Double && source_degree >= 2 && target_degree >= 2
}

pub open spec fn self_bond_at(bonds: Seq<PyBondSpec>, i: int) -> bool {
    bonds[i].sid == bonds[i].tid
}

pub open spec fn dangling_at(n: int, bonds: Seq<PyBondSpec>, i: int) -> bool {
    bonds[i].sid >= n || bonds[i].tid >= n
}

/// The bond `b` joins atoms `s` and `t`, either way round.
pub open spec fn bond_joins(b: PyBondSpec, s: usize, t: usize) -> bool {
    (b.sid == s && b.tid == t) || (b.sid == t && b.tid == s)
}

/// An earlier bond joins the same pair as bond `i`.
pub open spec fn duplicate_at(bonds: Seq<PyBondSpec>, i: int) -> bool {
    exists|j: int| 0 <= j < i && #[trigger] bond_joins(bonds[j], bonds[i].sid, bonds[i].tid)
}

pub open spec fn hypervalent_at(atoms: Seq<PyAtomSpec>, bonds: Seq<PyBondSpec>, a: int) -> bool {
    atoms[a].hydrogens + bond_sum(bonds, a as usize) > capacity(
        atoms[a].element.element,
        atoms[a].ion as int,
    )
}

pub open spec fn misplaced_atom_parity_at(
    atoms: Seq<PyAtomSpec>,
    bonds: Seq<PyBondSpec>,
    a: int,
) -> bool {
    atoms[a].parity is Some && !atom_parity_allowed(
        degree_in(bonds, a as usize) as int,
        atoms[a].hydrogens as int,
    )
}

pub open spec fn misplaced_bond_parity_at(bonds: Seq<PyBondSpec>, i: int) -> bool {
    bonds[i].parity is Some && !bond_parity_allowed(
        bonds[i].order.bond_order,
        degree_in(bonds, bonds[i].sid) as int,
        degree_in(bonds, bonds[i].tid) as int,
    )
}

pub open spec fn impossible_isotope_at(atoms: Seq<PyAtomSpec>, a: int) -> bool {
    atoms[a].isotope matches Some(m) && !isotope_plausible(atoms[a].element.element, m as int)
}

pub open spec fn no_self_bonds(bonds: Seq<PyBondSpec>) -> bool {
    forall|i: int| 0 <= i < bonds.len() ==> !#[trigger] self_bond_at(bonds, i)
}

pub open spec fn no_dangling_bonds(n: int, bonds: Seq<PyBondSpec>) -> bool {
    forall|i: int| 0 <= i < bonds.len() ==> !#[trigger] dangling_at(n, bonds, i)
}

pub open spec fn no_duplicate_bonds(bonds: Seq<PyBondSpec>) -> bool {
    forall|i: int| 0 <= i < bonds.len() ==> !#[trigger] duplicate_at(bonds, i)
}

pub open spec fn no_hypervalent_atoms(atoms: Seq<PyAtomSpec>, bonds: Seq<PyBondSpec>) -> bool {
    forall|a: int| 0 <= a < atoms.len() ==> !#[trigger] hypervalent_at(atoms, bonds, a)
}

pub open spec fn no_misplaced_atom_parity(atoms: Seq<PyAtomSpec>, bonds: Seq<PyBondSpec>) -> bool {
    forall|a: int| 0 <= a < atoms.len() ==> !#[trigger] misplaced_atom_parity_at(atoms, bonds, a)
}

pub open spec fn no_misplaced_bond_parity(bonds: Seq<PyBondSpec>) -> bool {
    forall|i: int| 0 <= i < bonds.len() ==> !#[trigger] misplaced_bond_parity_at(bonds, i)
}

pub open spec fn no_impossible_isotopes(atoms: Seq<PyAtomSpec>) -> bool {
    forall|a: int| 0 <= a < atoms.len() ==> !#[trigger] impossible_isotope_at(atoms, a)
}

/// Every bond joins two distinct listed atoms, and no pair is joined twice.
pub open spec fn topology_ok(atoms: Seq<PyAtomSpec>, bonds: Seq<PyBondSpec>) -> bool {
    no_self_bonds(bonds) && no_dangling_bonds(atoms.len() as int, bonds) && no_duplicate_bonds(
        bonds,
    )
}

/// The atoms and bonds describe a well-formed molecule.
pub open spec fn valid(atoms: Seq<PyAtomSpec>, bonds: Seq<PyBondSpec>) -> bool {
    &&& topology_ok(atoms, bonds)
    &&& no_hypervalent_atoms(atoms, bonds)
    &&& no_misplaced_atom_parity(atoms, bonds)
    &&& no_misplaced_bond_parity(bonds)
    &&& no_impossible_isotopes(atoms)
}

/// Bond `i` is the first self bond.
pub open spec fn first_self_bond(bonds: Seq<PyBondSpec>, i: int) -> bool {
    0 <= i < bonds.len() && self_bond_at(bonds, i) && forall|j: int|
        0 <= j < i ==> !#[trigger] self_bond_at(bonds, j)
}

/// Bond `i` is the first bond with an end outside `0..n`.
pub open spec fn first_dangling_bond(n: int, bonds: Seq<PyBondSpec>, i: int) -> bool {
    0 <= i < bonds.len() && dangling_at(n, bonds, i) && forall|j: int|
        0 <= j < i ==> !#[trigger] dangling_at(n, bonds, j)
}

/// Bond `i` is the first bond that repeats an earlier pair.
pub open spec fn first_duplicate_bond(bonds: Seq<PyBondSpec>, i: int) -> bool {
    0 <= i < bonds.len() && duplicate_at(bonds, i) && forall|j: int|
        0 <= j < i ==> !#[trigger] duplicate_at(bonds, j)
}

/// Atom `a` is the first hypervalent atom.
pub open spec fn first_hypervalent_atom(atoms: Seq<PyAtomSpec>, bonds: Seq<PyBondSpec>, a: int) -> bool {
    0 <= a < atoms.len() && hypervalent_at(atoms, bonds, a) && forall|j: int|
        0 <= j < a ==> !#[trigger] hypervalent_at(atoms, bonds, j)
}

/// Atom `a` is the first atom with a parity it cannot carry.
pub open spec fn first_misplaced_atom_parity(
    atoms: Seq<PyAtomSpec>,
    bonds: Seq<PyBondSpec>,
    a: int,
) -> bool {
    0 <= a < atoms.len() && misplaced_atom_parity_at(atoms, bonds, a) && forall|j: int|
        0 <= j < a ==> !#[trigger] misplaced_atom_parity_at(atoms, bonds, j)
}

/// Bond `i` is the first bond with a parity it cannot carry.
pub open spec fn first_misplaced_bond_parity(bonds: Seq<PyBondSpec>, i: int) -> bool {
    0 <= i < bonds.len() && misplaced_bond_parity_at(bonds, i) && forall|j: int|
        0 <= j < i ==> !#[trigger] misplaced_bond_parity_at(bonds, j)
}

/// Atom `a` is the first atom with an impossible isotope.
pub open spec fn first_impossible_isotope(atoms: Seq<PyAtomSpec>, a: int) -> bool {
    0 <= a < atoms.len() && impossible_isotope_at(atoms, a) && forall|j: int|
        0 <= j < a ==> !#[trigger] impossible_isotope_at(atoms, j)
}

/// `e` is the error of the first rule that the atoms and bonds break, the rules
/// taken in this order: self bonds, dangling ends, duplicate bonds, hypervalent
/// atoms, atom parities, bond parities, isotopes; within a rule, the first atom
/// or bond in list order.
pub open spec fn build_error(atoms: Seq<PyAtomSpec>, bonds: Seq<PyBondSpec>, e: Error) -> bool {
    let n = atoms.len() as int;
    let sound = topology_ok(atoms, bonds) && no_hypervalent_atoms(atoms, bonds);
    match e {
        Error::SelfBond(x) => exists|i: int| #[trigger] first_self_bond(bonds, i) && bonds[i].sid == x,
        Error::DanglingBondEndpoint(i) => no_self_bonds(bonds) && first_dangling_bond(n, bonds, i as int),
        Error::DuplicateBond(i) => {
            &&& no_self_bonds(bonds)
            &&& no_dangling_bonds(n, bonds)
            &&& first_duplicate_bond(bonds, i as int)
        },
        Error::HypervalentAtom(a) => topology_ok(atoms, bonds) && first_hypervalent_atom(atoms, bonds, a as int),
        Error::MisplacedBond(Site::Atom(a)) => sound && first_misplaced_atom_parity(atoms, bonds, a as int),
        Error::MisplacedBond(Site::Bond(i)) => {
            &&& sound
            &&& no_misplaced_atom_parity(atoms, bonds)
            &&& first_misplaced_bond_parity(bonds, i as int)
        },
        Error::ImpossibleIsotope(a) => {
            &&& sound
            &&& no_misplaced_atom_parity(atoms, bonds)
            &&& no_misplaced_bond_parity(bonds)
            &&& first_impossible_isotope(atoms, a as int)
        },
        _ => false,
    }
}

/// The bonding capacity of an atom of element `e` with charge `charge`.
pub fn bonding_capacity(e: Element, charge: i8) -> (r: u8)
    ensures
        r == capacity(e, charge as int),
{
    let v: i16 = e.valence_electrons() as i16 - charge as i16;
    let c: i16 = match e.closed_shell() {
        Some(s) => if v <= s as i16 - v {
            v
        } else {
            s as i16 - v
        },
        None => v,
    };
    if c < 0 {
        0
    } else {
        c as u8
    }
}

/// Whether mass number `mass` is plausible for element `e`.
pub fn is_isotope_plausible(e: Element, mass: u16) -> (r: bool)
    ensures
        r == isotope_plausible(e, mass as int),
{
    let z = e.atomic_number();
    z <= mass && mass as u32 <= 3 * z as u32 + 4
}

/// Whether an atom of this degree and hydrogen count can carry a parity.
pub fn is_atom_parity_allowed(degree: usize, hydrogens: u8) -> (r: bool)
    ensures
        r == atom_parity_allowed(degree as int, hydrogens as int),
{
    degree >= 3 || (degree == 2 && hydrogens >= 1)
}

/// Whether a bond of this order between atoms of these degrees can carry a parity.
pub fn is_bond_parity_allowed(order: BondOrder, source_degree: usize, target_degree: usize) -> (r:
    bool)
    ensures
        r == bond_parity_allowed(order, source_degree as int, target_degree as int),
{
    order == BondOrder::Double && source_degree >= 2 && target_degree >= 2
}

/// A self bond anywhere in the list decides the outcome: whatever else is
/// wrong, the build fails, and with a self-bond error.
pub proof fn lemma_self_bond_reported_first(
    atoms: Seq<PyAtomSpec>,
    bonds: Seq<PyBondSpec>,
    i: int,
    e: Error,
)
    requires
        0 <= i < bonds.len(),
        self_bond_at(bonds, i),
    ensures
        !valid(atoms, bonds),
        build_error(atoms, bonds, e) ==> e is SelfBond,
{
}

/// Two bonds over the same pair of listed atoms, in either order, make the build
/// fail with a duplicate-bond error at or before the later of them.
pub proof fn lemma_duplicate_pair_rejected(
    atoms: Seq<PyAtomSpec>,
    bonds: Seq<PyBondSpec>,
    j: int,
    k: int,
    e: Error,
)
    requires
        no_self_bonds(bonds),
        no_dangling_bonds(atoms.len() as int, bonds),
        0 <= j < k < bonds.len(),
        bond_joins(bonds[j], bonds[k].sid, bonds[k].tid),
    ensures
        !valid(atoms, bonds),
        build_error(atoms, bonds, e) ==> (e matches Error::DuplicateBond(i) && i <= k),
{
    assert(duplicate_at(bonds, k));
}

/// A parity on an atom with fewer than three neighbors and no implicit hydrogen to
/// complete a third substituent makes an otherwise sound molecule fail with a
/// misplaced-parity error at or before that atom.
pub proof fn lemma_atom_parity_needs_substituents(
    atoms: Seq<PyAtomSpec>,
    bonds: Seq<PyBondSpec>,
    a: int,
    e: Error,
)
    requires
        topology_ok(atoms, bonds),
        no_hypervalent_atoms(atoms, bonds),
        0 <= a < atoms.len(),
        atoms[a].parity is Some,
        degree_in(bonds, a as usize) < 3,
        degree_in(bonds, a as usize) < 2 || atoms[a].hydrogens == 0,
    ensures
        !valid(atoms, bonds),
        build_error(atoms, bonds, e) ==> (e matches Error::MisplacedBond(Site::Atom(b)) && b <= a),
{
    assert(misplaced_atom_parity_at(atoms, bonds, a));
}

} // verus!
