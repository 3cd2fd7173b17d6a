use oxmol::bond_order::PyBondOrder;
use oxmol::element::PyElement;
use oxmol::error::{Error, Site};
use oxmol::molecule::PyDefaultMolecule;
use oxmol::parity::PyParity;
use oxmol::spec::{PyAtomSpec, PyBondSpec};

fn atom(number: u16, hydrogens: u8) -> PyAtomSpec {
    PyAtomSpec::new(PyElement::new(number).unwrap(), hydrogens, 0, None, None)
}

fn bond(sid: usize, tid: usize, order: u8) -> PyBondSpec {
    PyBondSpec { sid, tid, order: PyBondOrder::new(order).unwrap(), parity: None }
}

fn methanol() -> PyDefaultMolecule {
    PyDefaultMolecule::new(vec![atom(6, 3), atom(8, 1)], vec![bond(0, 1, 1)]).unwrap()
}

#[test]
fn carbon_oxygen_single_bond() {
    let m = PyDefaultMolecule::new(vec![atom(6, 0), atom(8, 0)], vec![bond(0, 1, 1)]).unwrap();
    assert_eq!(m.order(), 2);
    assert_eq!(m.size(), 1);
    assert_eq!(m.neighbors(0), Ok(vec![1]));
    assert_eq!(m.degree(0), Ok(1));
    assert!(m.has_edge(0, 1));
    assert!(m.has_edge(1, 0));
    assert!(!m.is_empty());
    assert_eq!(m.nodes(), vec![0, 1]);
    assert_eq!(m.edges(), vec![(0, 1)]);
}

#[test]
fn empty_molecule() {
    let m = PyDefaultMolecule::new(vec![], vec![]).unwrap();
    assert!(m.is_empty());
    assert_eq!(m.order(), 0);
    assert_eq!(m.size(), 0);
    assert_eq!(m.nodes(), Vec::<usize>::new());
    assert_eq!(m.neighbors(0), Err(Error::NodeNotFound(0)));
}

#[test]
fn self_bond_is_reported_before_other_faults() {
    // The first bond dangles and the second duplicates it; the self bond still decides.
    let bonds = vec![bond(0, 7, 1), bond(7, 0, 1), bond(1, 1, 1)];
    assert_eq!(PyDefaultMolecule::new(vec![atom(6, 4), atom(6, 4)], bonds).err(), Some(Error::SelfBond(1)));
}

#[test]
fn duplicate_pair_in_either_order() {
    let atoms: Vec<PyAtomSpec> = (0..6).map(|_| atom(6, 0)).collect();
    let same = vec![bond(2, 5, 1), bond(2, 5, 1)];
    assert_eq!(PyDefaultMolecule::new(atoms.clone(), same).err(), Some(Error::DuplicateBond(1)));
    let reversed = vec![bond(0, 1, 1), bond(2, 5, 1), bond(5, 2, 1)];
    assert_eq!(PyDefaultMolecule::new(atoms, reversed).err(), Some(Error::DuplicateBond(2)));
}

#[test]
fn dangling_endpoint() {
    let r = PyDefaultMolecule::new(vec![atom(6, 0), atom(6, 0)], vec![bond(0, 1, 1), bond(1, 2, 1)]);
    assert_eq!(r.err(), Some(Error::DanglingBondEndpoint(1)));
}

#[test]
fn methane_builds_and_extra_bonding_is_hypervalent() {
    let methane = PyDefaultMolecule::new(vec![atom(6, 4)], vec![]).unwrap();
    assert_eq!(methane.hydrogens(0), Ok(4));
    assert_eq!(methane.electrons(0), Ok(0));
    let r = PyDefaultMolecule::new(vec![atom(6, 4), atom(8, 0)], vec![bond(0, 1, 2)]);
    assert_eq!(r.err(), Some(Error::HypervalentAtom(0)));
}

#[test]
fn charge_changes_capacity() {
    let ammonium = PyAtomSpec::new(PyElement::new(7).unwrap(), 4, 1, None, None);
    assert!(PyDefaultMolecule::new(vec![ammonium], vec![]).is_ok());
    assert_eq!(PyDefaultMolecule::new(vec![atom(7, 4)], vec![]).err(), Some(Error::HypervalentAtom(0)));
    assert!(PyDefaultMolecule::new(vec![atom(7, 3)], vec![]).is_ok());
}

#[test]
fn atom_parity_needs_three_substituents() {
    let chiral = PyAtomSpec::new(PyElement::new(6).unwrap(), 0, 0, None, Some(PyParity::new(true)));
    let r = PyDefaultMolecule::new(vec![chiral, atom(8, 1), atom(6, 3)], vec![bond(0, 1, 1), bond(0, 2, 1)]);
    assert_eq!(r.err(), Some(Error::MisplacedBond(Site::Atom(0))));
}

#[test]
fn atom_parity_with_three_neighbors_and_a_hydrogen() {
    let center = PyAtomSpec::new(PyElement::new(6).unwrap(), 1, 0, None, Some(PyParity::new(false)));
    let atoms = vec![center, atom(9, 0), atom(17, 0), atom(35, 0)];
    let m = PyDefaultMolecule::new(atoms, vec![bond(0, 1, 1), bond(0, 2, 1), bond(0, 3, 1)]).unwrap();
    assert_eq!(m.atom_parity(0), Ok(Some(PyParity::new(false))));
    assert_eq!(m.atom_parity(1), Ok(None));
    assert_eq!(m.degree(0), Ok(3));
    assert_eq!(m.neighbors(0), Ok(vec![1, 2, 3]));
    assert_eq!(m.neighbors(2), Ok(vec![0]));
}

#[test]
fn atom_parity_with_two_neighbors_and_a_hydrogen() {
    let center = PyAtomSpec::new(PyElement::new(6).unwrap(), 2, 0, None, Some(PyParity::new(true)));
    let m = PyDefaultMolecule::new(vec![center, atom(8, 1), atom(6, 3)], vec![bond(0, 1, 1), bond(0, 2, 1)]);
    assert!(m.is_ok());
}

#[test]
fn bond_parity_on_a_flanked_double_bond() {
    let mut double = bond(1, 2, 2);
    double.parity = Some(PyParity::new(true));
    let atoms = vec![atom(6, 3), atom(6, 1), atom(6, 1), atom(6, 3)];
    let m = PyDefaultMolecule::new(atoms, vec![bond(0, 1, 1), double, bond(2, 3, 1)]).unwrap();
    assert_eq!(m.bond_parity(2, 1), Ok(Some(PyParity::new(true))));
    assert_eq!(m.bond_parity(0, 1), Ok(None));
    assert_eq!(m.bond_order(2, 1).unwrap().as_int(), 2);
}

#[test]
fn bond_parity_on_a_single_bond_is_misplaced() {
    let mut single = bond(0, 1, 1);
    single.parity = Some(PyParity::new(false));
    let r = PyDefaultMolecule::new(vec![atom(6, 3), atom(6, 3)], vec![single]);
    assert_eq!(r.err(), Some(Error::MisplacedBond(Site::Bond(0))));
}

#[test]
fn bond_parity_on_an_unflanked_double_bond_is_misplaced() {
    let mut double = bond(0, 1, 2);
    double.parity = Some(PyParity::new(true));
    let r = PyDefaultMolecule::new(vec![atom(6, 2), atom(6, 2)], vec![double]);
    assert_eq!(r.err(), Some(Error::MisplacedBond(Site::Bond(0))));
}

#[test]
fn isotopes_must_be_plausible() {
    let c13 = PyAtomSpec::new(PyElement::new(6).unwrap(), 4, 0, Some(13), None);
    let m = PyDefaultMolecule::new(vec![c13], vec![]).unwrap();
    assert_eq!(m.isotope(0), Ok(Some(13)));
    let light = PyAtomSpec::new(PyElement::new(6).unwrap(), 4, 0, Some(5), None);
    assert_eq!(PyDefaultMolecule::new(vec![atom(1, 1), light], vec![]).err(), Some(Error::ImpossibleIsotope(1)));
    let heavy = PyAtomSpec::new(PyElement::new(6).unwrap(), 4, 0, Some(23), None);
    assert_eq!(PyDefaultMolecule::new(vec![heavy], vec![]).err(), Some(Error::ImpossibleIsotope(0)));
    let edge = PyAtomSpec::new(PyElement::new(6).unwrap(), 4, 0, Some(22), None);
    assert!(PyDefaultMolecule::new(vec![edge], vec![]).is_ok());
}

#[test]
fn missing_node_and_edge() {
    let m = PyDefaultMolecule::new(vec![atom(6, 4), atom(6, 4)], vec![]).unwrap();
    assert_eq!(m.element(99), Err(Error::NodeNotFound(99)));
    assert_eq!(m.bond_order(0, 1), Err(Error::EdgeNotFound(0, 1)));
    assert_eq!(m.bond_order(0, 9), Err(Error::NodeNotFound(9)));
    assert_eq!(m.bond_parity(7, 1), Err(Error::NodeNotFound(7)));
    assert_eq!(m.degree(2), Err(Error::NodeNotFound(2)));
    assert_eq!(m.charge(2), Err(Error::NodeNotFound(2)));
    assert!(!m.has_edge(0, 1));
    assert!(!m.has_edge(0, 5));
    assert!(m.has_node(1));
    assert!(!m.has_node(2));
}

#[test]
fn atom_queries() {
    let m = methanol();
    assert_eq!(m.element(1), Ok(PyElement::new(8).unwrap()));
    assert_eq!(m.hydrogens(0), Ok(3));
    assert_eq!(m.charge(1), Ok(0));
    assert_eq!(m.isotope(1), Ok(None));
    assert_eq!(m.electrons(1), Ok(4));
    assert_eq!(m.electrons(0), Ok(0));
    assert_eq!(m.bond_order(1, 0).unwrap().as_int(), 1);
}

#[test]
fn repeated_queries_agree() {
    let m = methanol();
    for _ in 0..3 {
        assert_eq!(m.neighbors(1), Ok(vec![0]));
        assert_eq!(m.degree(1), Ok(1));
        assert!(m.has_edge(1, 0));
        assert_eq!(m.electrons(1), Ok(4));
        assert_eq!(m.edges(), vec![(0, 1)]);
    }
}

#[test]
fn neighbors_follow_bond_order_of_insertion() {
    let atoms: Vec<PyAtomSpec> = (0..4).map(|_| atom(6, 0)).collect();
    let m = PyDefaultMolecule::new(atoms, vec![bond(2, 0, 1), bond(0, 3, 1), bond(1, 0, 1)]).unwrap();
    assert_eq!(m.neighbors(0), Ok(vec![2, 3, 1]));
    assert_eq!(m.degree(0), Ok(3));
    assert_eq!(m.edges(), vec![(2, 0), (0, 3), (1, 0)]);
}

#[test]
fn charged_atom_electrons() {
    let oxide = PyAtomSpec::new(PyElement::new(8).unwrap(), 0, -1, None, None);
    let m = PyDefaultMolecule::new(vec![atom(6, 3), oxide], vec![bond(0, 1, 1)]).unwrap();
    assert_eq!(m.electrons(1), Ok(6));
    assert_eq!(m.charge(1), Ok(-1));
}

#[test]
fn transition_metals_bond_with_all_valence_electrons() {
    let mut atoms = vec![atom(26, 0)];
    let mut bonds = Vec::new();
    for i in 1..=6 {
        atoms.push(atom(9, 0));
        bonds.push(bond(0, i, 1));
    }
    let m = PyDefaultMolecule::new(atoms, bonds).unwrap();
    assert_eq!(m.degree(0), Ok(6));
    assert_eq!(m.electrons(0), Ok(2));
}

#[test]
fn duet_elements_have_small_capacity() {
    let proton = PyAtomSpec::new(PyElement::new(1).unwrap(), 0, 1, None, None);
    assert!(PyDefaultMolecule::new(vec![proton], vec![]).is_ok());
    let bonded_proton = PyAtomSpec::new(PyElement::new(1).unwrap(), 1, 1, None, None);
    assert_eq!(PyDefaultMolecule::new(vec![bonded_proton], vec![]).err(), Some(Error::HypervalentAtom(0)));
    let helium = atom(2, 0);
    assert_eq!(PyDefaultMolecule::new(vec![helium, atom(1, 0)], vec![bond(0, 1, 1)]).err(), Some(Error::HypervalentAtom(0)));
    assert!(PyDefaultMolecule::new(vec![atom(1, 0), atom(1, 0)], vec![bond(0, 1, 1)]).is_ok());
}

#[test]
fn triple_bond_fills_nitrogen() {
    let m = PyDefaultMolecule::new(vec![atom(7, 0), atom(7, 0)], vec![bond(0, 1, 3)]).unwrap();
    assert_eq!(m.electrons(0), Ok(2));
    assert_eq!(m.bond_order(0, 1).unwrap().as_int(), 3);
    let r = PyDefaultMolecule::new(vec![atom(7, 1), atom(7, 0)], vec![bond(0, 1, 3)]);
    assert_eq!(r.err(), Some(Error::HypervalentAtom(0)));
}
