//! Validated molecular graphs: atoms and bonds are checked once, when a
//! molecule is built, against structural and chemical rules, and the built
//! molecule then answers queries about its atoms, bonds and neighbors.

pub mod bond_order;
pub mod element;
pub mod error;
pub mod graph;
pub mod molecule;
pub mod parity;
pub mod rules;
pub mod spec;
