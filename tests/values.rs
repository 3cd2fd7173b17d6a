use oxmol::bond_order::{BondOrder, PyBondOrder};
use oxmol::element::{Element, PyElement};
use oxmol::error::{CompareOp, Error};
use oxmol::parity::{Parity, PyParity};
use oxmol::spec::PyBondSpec;

#[test]
fn every_atomic_number_round_trips() {
    for n in 1u16..=118 {
        let element = PyElement::new(n).unwrap();
        assert_eq!(element.atomic_number(), n);
    }
}

#[test]
fn every_symbol_round_trips_to_the_numeric_element() {
    for n in 1u16..=118 {
        let element = PyElement::new(n).unwrap();
        let (a, b) = element.element.symbol_pair();
        let mut symbol = String::new();
        symbol.push(a);
        if b != ' ' {
            symbol.push(b);
        }
        assert_eq!(PyElement::from_symbol(&symbol), Ok(element));
    }
}

#[test]
fn atomic_numbers_out_of_range_fail() {
    assert_eq!(PyElement::new(0), Err(Error::InvalidAtomicNumber));
    assert_eq!(PyElement::new(119), Err(Error::InvalidAtomicNumber));
    assert_eq!(PyElement::new(u16::MAX), Err(Error::InvalidAtomicNumber));
}

#[test]
fn known_symbols_give_their_elements() {
    assert_eq!(PyElement::from_symbol("C").unwrap().element, Element::C);
    assert_eq!(PyElement::from_symbol("Cl").unwrap().atomic_number(), 17);
    assert_eq!(PyElement::from_symbol("Og").unwrap().atomic_number(), 118);
    assert_eq!(PyElement::from_symbol("H").unwrap().atomic_number(), 1);
}

#[test]
fn unknown_symbols_fail() {
    for symbol in ["", "c", "CL", "Xx", "C ", " C", "Hee", "cl"] {
        assert_eq!(PyElement::from_symbol(symbol), Err(Error::UnknownElementSymbol), "{}", symbol);
    }
}

#[test]
fn valence_electrons_follow_the_group() {
    let expected = [(1u16, 1u8), (2, 2), (6, 4), (7, 5), (8, 6), (9, 7), (10, 8), (26, 8), (57, 3), (72, 4), (80, 12), (81, 3), (118, 8)];
    for (n, v) in expected {
        assert_eq!(PyElement::new(n).unwrap().valence_electrons(), v, "element {}", n);
    }
}

#[test]
fn element_hash_is_atomic_number() {
    assert_eq!(PyElement::new(8).unwrap().hash_value(), 8);
}

#[test]
fn element_comparisons() {
    let c = PyElement::new(6).unwrap();
    let o = PyElement::new(8).unwrap();
    assert_eq!(c.richcmp(&c, CompareOp::Eq), Ok(true));
    assert_eq!(c.richcmp(&o, CompareOp::Eq), Ok(false));
    assert_eq!(c.richcmp(&o, CompareOp::Ne), Ok(true));
    assert_eq!(c.richcmp(&o, CompareOp::Lt), Ok(true));
    assert_eq!(c.richcmp(&o, CompareOp::Ge), Ok(false));
    assert_eq!(c.richcmp(&o, CompareOp::Le), Ok(true));
    assert_eq!(c.richcmp(&o, CompareOp::Gt), Ok(false));
    assert_eq!(o.richcmp(&c, CompareOp::Gt), Ok(true));
    assert_eq!(c.richcmp(&c, CompareOp::Le), Ok(true));
    assert_eq!(c.richcmp(&c, CompareOp::Lt), Ok(false));
}

#[test]
fn bond_orders_round_trip() {
    for n in 0u8..=3 {
        assert_eq!(PyBondOrder::new(n).unwrap().as_int(), n);
    }
    assert_eq!(PyBondOrder::new(2).unwrap().bond_order, BondOrder::Double);
}

#[test]
fn bond_orders_out_of_range_fail() {
    assert_eq!(PyBondOrder::new(4), Err(Error::InvalidBondOrderValue));
    assert_eq!(PyBondOrder::new(255), Err(Error::InvalidBondOrderValue));
}

#[test]
fn only_the_zero_order_is_falsy() {
    assert!(!PyBondOrder::new(0).unwrap().is_truthy());
    assert!(PyBondOrder::new(1).unwrap().is_truthy());
    assert!(PyBondOrder::new(2).unwrap().is_truthy());
    assert!(PyBondOrder::new(3).unwrap().is_truthy());
}

#[test]
fn bond_order_hash_and_comparisons() {
    let single = PyBondOrder::new(1).unwrap();
    let triple = PyBondOrder::new(3).unwrap();
    assert_eq!(triple.hash_value(), 3);
    assert_eq!(single.richcmp(&single, CompareOp::Eq), Ok(true));
    assert_eq!(single.richcmp(&triple, CompareOp::Ne), Ok(true));
    assert_eq!(single.richcmp(&triple, CompareOp::Gt), Err(Error::UnsupportedOperation));
}

#[test]
fn parity_from_bool_and_hash() {
    let positive = PyParity::new(true);
    let negative = PyParity::new(false);
    assert_eq!(positive.parity, Parity::Positive);
    assert_eq!(negative.parity, Parity::Negative);
    assert_eq!(positive.hash_value(), 1);
    assert_eq!(negative.hash_value(), -1);
    assert_eq!(positive.richcmp(&negative, CompareOp::Eq), Ok(false));
    assert_eq!(positive.richcmp(&negative, CompareOp::Ne), Ok(true));
    assert_eq!(positive.richcmp(&negative, CompareOp::Le), Err(Error::UnsupportedOperation));
}

#[test]
fn bond_spec_refuses_self_bond() {
    let single = PyBondOrder::new(1).unwrap();
    assert_eq!(PyBondSpec::new(3, 3, single, None), Err(Error::SelfBond(3)));
    let bond = PyBondSpec::new(0, 1, single, None).unwrap();
    assert_eq!((bond.sid, bond.tid), (0, 1));
}

#[test]
fn elements_are_ordered_by_atomic_number() {
    assert!(Element::H < Element::He);
    assert!(Element::C < Element::N);
    assert!(Element::Lr < Element::Og);
}

#[test]
fn element_comparisons_follow_atomic_numbers() {
    for a in 1u16..=118 {
        for b in 1u16..=118 {
            let x = PyElement::new(a).unwrap();
            let y = PyElement::new(b).unwrap();
            assert_eq!(x.richcmp(&y, CompareOp::Lt), Ok(a < b));
            assert_eq!(x.richcmp(&y, CompareOp::Le), Ok(a <= b));
            assert_eq!(x.richcmp(&y, CompareOp::Gt), Ok(a > b));
            assert_eq!(x.richcmp(&y, CompareOp::Ge), Ok(a >= b));
            assert_eq!(x.richcmp(&y, CompareOp::Eq), Ok(a == b));
            assert_eq!(x.richcmp(&y, CompareOp::Ne), Ok(a != b));
        }
    }
}
