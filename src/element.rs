use vstd::prelude::*;
use vstd::string::*;

use crate::error::{CompareOp, Error};

verus! {

/// The chemical elements, hydrogen through oganesson, declared (and so ordered)
/// by atomic number.
#[derive(Clone, Copy, Debug, PartialEq, Eq, PartialOrd, Ord, Hash, Structural)]
pub enum Element {
    H,
    He,
    Li,
    Be,
    B,
    C,
    N,
    O,
    F,
    Ne,
    Na,
    Mg,
    Al,
    Si,
    P,
    S,
    Cl,
    Ar,
    K,
    Ca,
    Sc,
    Ti,
    V,
    Cr,
    Mn,
    Fe,
    Co,
    Ni,
    Cu,
    Zn,
    Ga,
    Ge,
    As,
    Se,
    Br,
    Kr,
    Rb,
    Sr,
    Y,
    Zr,
    Nb,
    Mo,
    Tc,
    Ru,
    Rh,
    Pd,
    Ag,
    Cd,
    In,
    Sn,
    Sb,
    Te,
    I,
    Xe,
    Cs,
    Ba,
    La,
    Ce,
    Pr,
    Nd,
    Pm,
    Sm,
    Eu,
    Gd,
    Tb,
    Dy,
    Ho,
    Er,
    Tm,
    Yb,
    Lu,
    Hf,
    Ta,
    W,
    Re,
    Os,
    Ir,
    Pt,
    Au,
    Hg,
    Tl,
    Pb,
    Bi,
    Po,
    At,
    Rn,
    Fr,
    Ra,
    Ac,
    Th,
    Pa,
    U,
    Np,
    Pu,
    Am,
    Cm,
    Bk,
    Cf,
    Es,
    Fm,
    Md,
    No,
    Lr,
    Rf,
    Db,
    Sg,
    Bh,
    Hs,
    Mt,
    Ds,
    Rg,
    Cn,
    Nh,
    Fl,
    Mc,
    Lv,
    Ts,
    Og,
}

impl Element {
    /// The number of protons in the nucleus, from 1 to 118.
    pub open spec fn spec_atomic_number(self) -> u16 {
        match self {
            Element::H => 1,
            Element::He => 2,
            Element::Li => 3,
            Element::Be => 4,
            Element::B => 5,
            Element::C => 6,
            Element::N => 7,
            Element::O => 8,
            Element::F => 9,
            Element::Ne => 10,
            Element::Na => 11,
            Element::Mg => 12,
            Element::Al => 13,
            Element::Si => 14,
            Element::P => 15,
            Element::S => 16,
            Element::Cl => 17,
            Element::Ar => 18,
            Element::K => 19,
            Element::Ca => 20,
            Element::Sc => 21,
            Element::Ti => 22,
            Element::V => 23,
            Element::Cr => 24,
            Element::Mn => 25,
            Element::Fe => 26,
            Element::Co => 27,
            Element::Ni => 28,
            Element::Cu => 29,
            Element::Zn => 30,
            Element::Ga => 31,
            Element::Ge => 32,
            Element::As => 33,
            Element::Se => 34,
            Element::Br => 35,
            Element::Kr => 36,
            Element::Rb => 37,
            Element::Sr => 38,
            Element::Y => 39,
            Element::Zr => 40,
            Element::Nb => 41,
            Element::Mo => 42,
            Element::Tc => 43,
            Element::Ru => 44,
            Element::Rh => 45,
            Element::Pd => 46,
            Element::Ag => 47,
            Element::Cd => 48,
            Element::In => 49,
            Element::Sn => 50,
            Element::Sb => 51,
            Element::Te => 52,
            Element::I => 53,
            Element::Xe => 54,
            Element::Cs => 55,
            Element::Ba => 56,
            Element::La => 57,
            Element::Ce => 58,
            Element::Pr => 59,
            Element::Nd => 60,
            Element::Pm => 61,
            Element::Sm => 62,
            Element::Eu => 63,
            Element::Gd => 64,
            Element::Tb => 65,
            Element::Dy => 66,
            Element::Ho => 67,
            Element::Er => 68,
            Element::Tm => 69,
            Element::Yb => 70,
            Element::Lu => 71,
            Element::Hf => 72,
            Element::Ta => 73,
            Element::W => 74,
            Element::Re => 75,
            Element::Os => 76,
            Element::Ir => 77,
            Element::Pt => 78,
            Element::Au => 79,
            Element::Hg => 80,
            Element::Tl => 81,
            Element::Pb => 82,
            Element::Bi => 83,
            Element::Po => 84,
            Element::At => 85,
            Element::Rn => 86,
            Element::Fr => 87,
            Element::Ra => 88,
            Element::Ac => 89,
            Element::Th => 90,
            Element::Pa => 91,
            Element::U => 92,
            Element::Np => 93,
            Element::Pu => 94,
            Element::Am => 95,
            Element::Cm => 96,
            Element::Bk => 97,
            Element::Cf => 98,
            Element::Es => 99,
            Element::Fm => 100,
            Element::Md => 101,
            Element::No => 102,
            Element::Lr => 103,
            Element::Rf => 104,
            Element::Db => 105,
            Element::Sg => 106,
            Element::Bh => 107,
            Element::Hs => 108,
            Element::Mt => 109,
            Element::Ds => 110,
            Element::Rg => 111,
            Element::Cn => 112,
            Element::Nh => 113,
            Element::Fl => 114,
            Element::Mc => 115,
            Element::Lv => 116,
            Element::Ts => 117,
            Element::Og => 118,
        }
    }

    pub fn atomic_number(self) -> (r: u16)
        ensures
            r == self.spec_atomic_number(),
    {
        match self {
            Element::H => 1,
            Element::He => 2,
            Element::Li => 3,
            Element::Be => 4,
            Element::B => 5,
            Element::C => 6,
            Element::N => 7,
            Element::O => 8,
            Element::F => 9,
            Element::Ne => 10,
            Element::Na => 11,
            Element::Mg => 12,
            Element::Al => 13,
            Element::Si => 14,
            Element::P => 15,
            Element::S => 16,
            Element::Cl => 17,
            Element::Ar => 18,
            Element::K => 19,
            Element::Ca => 20,
            Element::Sc => 21,
            Element::Ti => 22,
            Element::V => 23,
            Element::Cr => 24,
            Element::Mn => 25,
            Element::Fe => 26,
            Element::Co => 27,
            Element::Ni => 28,
            Element::Cu => 29,
            Element::Zn => 30,
            Element::Ga => 31,
            Element::Ge => 32,
            Element::As => 33,
            Element::Se => 34,
            Element::Br => 35,
            Element::Kr => 36,
            Element::Rb => 37,
            Element::Sr => 38,
            Element::Y => 39,
            Element::Zr => 40,
            Element::Nb => 41,
            Element::Mo => 42,
            Element::Tc => 43,
            Element::Ru => 44,
            Element::Rh => 45,
            Element::Pd => 46,
            Element::Ag => 47,
            Element::Cd => 48,
            Element::In => 49,
            Element::Sn => 50,
            Element::Sb => 51,
            Element::Te => 52,
            Element::I => 53,
            Element::Xe => 54,
            Element::Cs => 55,
            Element::Ba => 56,
            Element::La => 57,
            Element::Ce => 58,
            Element::Pr => 59,
            Element::Nd => 60,
            Element::Pm => 61,
            Element::Sm => 62,
            Element::Eu => 63,
            Element::Gd => 64,
            Element::Tb => 65,
            Element::Dy => 66,
            Element::Ho => 67,
            Element::Er => 68,
            Element::Tm => 69,
            Element::Yb => 70,
            Element::Lu => 71,
            Element::Hf => 72,
            Element::Ta => 73,
            Element::W => 74,
            Element::Re => 75,
            Element::Os => 76,
            Element::Ir => 77,
            Element::Pt => 78,
            Element::Au => 79,
            Element::Hg => 80,
            Element::Tl => 81,
            Element::Pb => 82,
            Element::Bi => 83,
            Element::Po => 84,
            Element::At => 85,
            Element::Rn => 86,
            Element::Fr => 87,
            Element::Ra => 88,
            Element::Ac => 89,
            Element::Th => 90,
            Element::Pa => 91,
            Element::U => 92,
            Element::Np => 93,
            Element::Pu => 94,
            Element::Am => 95,
            Element::Cm => 96,
            Element::Bk => 97,
            Element::Cf => 98,
            Element::Es => 99,
            Element::Fm => 100,
            Element::Md => 101,
            Element::No => 102,
            Element::Lr => 103,
            Element::Rf => 104,
            Element::Db => 105,
            Element::Sg => 106,
            Element::Bh => 107,
            Element::Hs => 108,
            Element::Mt => 109,
            Element::Ds => 110,
            Element::Rg => 111,
            Element::Cn => 112,
            Element::Nh => 113,
            Element::Fl => 114,
            Element::Mc => 115,
            Element::Lv => 116,
            Element::Ts => 117,
            Element::Og => 118,
        }
    }

    /// The electrons of the outer shell that take part in bonding.
    pub open spec fn spec_valence_electrons(self) -> u8 {
        match self {
            Element::H => 1,
            Element::He => 2,
            Element::Li => 1,
            Element::Be => 2,
            Element::B => 3,
            Element::C => 4,
            Element::N => 5,
            Element::O => 6,
            Element::F => 7,
            Element::Ne => 8,
            Element::Na => 1,
            Element::Mg => 2,
            Element::Al => 3,
            Element::Si => 4,
            Element::P => 5,
            Element::S => 6,
            Element::Cl => 7,
            Element::Ar => 8,
            Element::K => 1,
            Element::Ca => 2,
            Element::Sc => 3,
            Element::Ti => 4,
            Element::V => 5,
            Element::Cr => 6,
            Element::Mn => 7,
            Element::Fe => 8,
            Element::Co => 9,
            Element::Ni => 10,
            Element::Cu => 11,
            Element::Zn => 12,
            Element::Ga => 3,
            Element::Ge => 4,
            Element::As => 5,
            Element::Se => 6,
            Element::Br => 7,
            Element::Kr => 8,
            Element::Rb => 1,
            Element::Sr => 2,
            Element::Y => 3,
            Element::Zr => 4,
            Element::Nb => 5,
            Element::Mo => 6,
            Element::Tc => 7,
            Element::Ru => 8,
            Element::Rh => 9,
            Element::Pd => 10,
            Element::Ag => 11,
            Element::Cd => 12,
            Element::In => 3,
            Element::Sn => 4,
            Element::Sb => 5,
            Element::Te => 6,
            Element::I => 7,
            Element::Xe => 8,
            Element::Cs => 1,
            Element::Ba => 2,
            Element::La => 3,
            Element::Ce => 3,
            Element::Pr => 3,
            Element::Nd => 3,
            Element::Pm => 3,
            Element::Sm => 3,
            Element::Eu => 3,
            Element::Gd => 3,
            Element::Tb => 3,
            Element::Dy => 3,
            Element::Ho => 3,
            Element::Er => 3,
            Element::Tm => 3,
            Element::Yb => 3,
            Element::Lu => 3,
            Element::Hf => 4,
            Element::Ta => 5,
            Element::W => 6,
            Element::Re => 7,
            Element::Os => 8,
            Element::Ir => 9,
            Element::Pt => 10,
            Element::Au => 11,
            Element::Hg => 12,
            Element::Tl => 3,
            Element::Pb => 4,
            Element::Bi => 5,
            Element::Po => 6,
            Element::At => 7,
            Element::Rn => 8,
            Element::Fr => 1,
            Element::Ra => 2,
            Element::Ac => 3,
            Element::Th => 3,
            Element::Pa => 3,
            Element::U => 3,
            Element::Np => 3,
            Element::Pu => 3,
            Element::Am => 3,
            Element::Cm => 3,
            Element::Bk => 3,
            Element::Cf => 3,
            Element::Es => 3,
            Element::Fm => 3,
            Element::Md => 3,
            Element::No => 3,
            Element::Lr => 3,
            Element::Rf => 4,
            Element::Db => 5,
            Element::Sg => 6,
            Element::Bh => 7,
            Element::Hs => 8,
            Element::Mt => 9,
            Element::Ds => 10,
            Element::Rg => 11,
            Element::Cn => 12,
            Element::Nh => 3,
            Element::Fl => 4,
            Element::Mc => 5,
            Element::Lv => 6,
            Element::Ts => 7,
            Element::Og => 8,
        }
    }

    pub fn valence_electrons(self) -> (r: u8)
        ensures
            r == self.spec_valence_electrons(),
    {
        match self {
            Element::H => 1,
            Element::He => 2,
            Element::Li => 1,
            Element::Be => 2,
            Element::B => 3,
            Element::C => 4,
            Element::N => 5,
            Element::O => 6,
            Element::F => 7,
            Element::Ne => 8,
            Element::Na => 1,
            Element::Mg => 2,
            Element::Al => 3,
            Element::Si => 4,
            Element::P => 5,
            Element::S => 6,
            Element::Cl => 7,
            Element::Ar => 8,
            Element::K => 1,
            Element::Ca => 2,
            Element::Sc => 3,
            Element::Ti => 4,
            Element::V => 5,
            Element::Cr => 6,
            Element::Mn => 7,
            Element::Fe => 8,
            Element::Co => 9,
            Element::Ni => 10,
            Element::Cu => 11,
            Element::Zn => 12,
            Element::Ga => 3,
            Element::Ge => 4,
            Element::As => 5,
            Element::Se => 6,
            Element::Br => 7,
            Element::Kr => 8,
            Element::Rb => 1,
            Element::Sr => 2,
            Element::Y => 3,
            Element::Zr => 4,
            Element::Nb => 5,
            Element::Mo => 6,
            Element::Tc => 7,
            Element::Ru => 8,
            Element::Rh => 9,
            Element::Pd => 10,
            Element::Ag => 11,
            Element::Cd => 12,
            Element::In => 3,
            Element::Sn => 4,
            Element::Sb => 5,
            Element::Te => 6,
            Element::I => 7,
            Element::Xe => 8,
            Element::Cs => 1,
            Element::Ba => 2,
            Element::La => 3,
            Element::Ce => 3,
            Element::Pr => 3,
            Element::Nd => 3,
            Element::Pm => 3,
            Element::Sm => 3,
            Element::Eu => 3,
            Element::Gd => 3,
            Element::Tb => 3,
            Element::Dy => 3,
            Element::Ho => 3,
            Element::Er => 3,
            Element::Tm => 3,
            Element::Yb => 3,
            Element::Lu => 3,
            Element::Hf => 4,
            Element::Ta => 5,
            Element::W => 6,
            Element::Re => 7,
            Element::Os => 8,
            Element::Ir => 9,
            Element::Pt => 10,
            Element::Au => 11,
            Element::Hg => 12,
            Element::Tl => 3,
            Element::Pb => 4,
            Element::Bi => 5,
            Element::Po => 6,
            Element::At => 7,
            Element::Rn => 8,
            Element::Fr => 1,
            Element::Ra => 2,
            Element::Ac => 3,
            Element::Th => 3,
            Element::Pa => 3,
            Element::U => 3,
            Element::Np => 3,
            Element::Pu => 3,
            Element::Am => 3,
            Element::Cm => 3,
            Element::Bk => 3,
            Element::Cf => 3,
            Element::Es => 3,
            Element::Fm => 3,
            Element::Md => 3,
            Element::No => 3,
            Element::Lr => 3,
            Element::Rf => 4,
            Element::Db => 5,
            Element::Sg => 6,
            Element::Bh => 7,
            Element::Hs => 8,
            Element::Mt => 9,
            Element::Ds => 10,
            Element::Rg => 11,
            Element::Cn => 12,
            Element::Nh => 3,
            Element::Fl => 4,
            Element::Mc => 5,
            Element::Lv => 6,
            Element::Ts => 7,
            Element::Og => 8,
        }
    }

    /// The electron count that closes the outer shell (the duet or the octet),
    /// or `None` for the d- and f-block metals, which follow no such rule.
    pub open spec fn spec_closed_shell(self) -> Option<u8> {
        match self {
            Element::H => Some(2),
            Element::He => Some(2),
            Element::Li => Some(8),
            Element::Be => Some(8),
            Element::B => Some(8),
            Element::C => Some(8),
            Element::N => Some(8),
            Element::O => Some(8),
            Element::F => Some(8),
            Element::Ne => Some(8),
            Element::Na => Some(8),
            Element::Mg => Some(8),
            Element::Al => Some(8),
            Element::Si => Some(8),
            Element::P => Some(8),
            Element::S => Some(8),
            Element::Cl => Some(8),
            Element::Ar => Some(8),
            Element::K => Some(8),
            Element::Ca => Some(8),
            Element::Sc => None,
            Element::Ti => None,
            Element::V => None,
            Element::Cr => None,
            Element::Mn => None,
            Element::Fe => None,
            Element::Co => None,
            Element::Ni => None,
            Element::Cu => None,
            Element::Zn => None,
            Element::Ga => Some(8),
            Element::Ge => Some(8),
            Element::As => Some(8),
            Element::Se => Some(8),
            Element::Br => Some(8),
            Element::Kr => Some(8),
            Element::Rb => Some(8),
            Element::Sr => Some(8),
            Element::Y => None,
            Element::Zr => None,
            Element::Nb => None,
            Element::Mo => None,
            Element::Tc => None,
            Element::Ru => None,
            Element::Rh => None,
            Element::Pd => None,
            Element::Ag => None,
            Element::Cd => None,
            Element::In => Some(8),
            Element::Sn => Some(8),
            Element::Sb => Some(8),
            Element::Te => Some(8),
            Element::I => Some(8),
            Element::Xe => Some(8),
            Element::Cs => Some(8),
            Element::Ba => Some(8),
            Element::La => None,
            Element::Ce => None,
            Element::Pr => None,
            Element::Nd => None,
            Element::Pm => None,
            Element::Sm => None,
            Element::Eu => None,
            Element::Gd => None,
            Element::Tb => None,
            Element::Dy => None,
            Element::Ho => None,
            Element::Er => None,
            Element::Tm => None,
            Element::Yb => None,
            Element::Lu => None,
            Element::Hf => None,
            Element::Ta => None,
            Element::W => None,
            Element::Re => None,
            Element::Os => None,
            Element::Ir => None,
            Element::Pt => None,
            Element::Au => None,
            Element::Hg => None,
            Element::Tl => Some(8),
            Element::Pb => Some(8),
            Element::Bi => Some(8),
            Element::Po => Some(8),
            Element::At => Some(8),
            Element::Rn => Some(8),
            Element::Fr => Some(8),
            Element::Ra => Some(8),
            Element::Ac => None,
            Element::Th => None,
            Element::Pa => None,
            Element::U => None,
            Element::Np => None,
            Element::Pu => None,
            Element::Am => None,
            Element::Cm => None,
            Element::Bk => None,
            Element::Cf => None,
            Element::Es => None,
            Element::Fm => None,
            Element::Md => None,
            Element::No => None,
            Element::Lr => None,
            Element::Rf => None,
            Element::Db => None,
            Element::Sg => None,
            Element::Bh => None,
            Element::Hs => None,
            Element::Mt => None,
            Element::Ds => None,
            Element::Rg => None,
            Element::Cn => None,
            Element::Nh => Some(8),
            Element::Fl => Some(8),
            Element::Mc => Some(8),
            Element::Lv => Some(8),
            Element::Ts => Some(8),
            Element::Og => Some(8),
        }
    }

    pub fn closed_shell(self) -> (r: Option<u8>)
        ensures
            r == self.spec_closed_shell(),
    {
        match self {
            Element::H => Some(2),
            Element::He => Some(2),
            Element::Li => Some(8),
            Element::Be => Some(8),
            Element::B => Some(8),
            Element::C => Some(8),
            Element::N => Some(8),
            Element::O => Some(8),
            Element::F => Some(8),
            Element::Ne => Some(8),
            Element::Na => Some(8),
            Element::Mg => Some(8),
            Element::Al => Some(8),
            Element::Si => Some(8),
            Element::P => Some(8),
            Element::S => Some(8),
            Element::Cl => Some(8),
            Element::Ar => Some(8),
            Element::K => Some(8),
            Element::Ca => Some(8),
            Element::Sc => None,
            Element::Ti => None,
            Element::V => None,
            Element::Cr => None,
            Element::Mn => None,
            Element::Fe => None,
            Element::Co => None,
            Element::Ni => None,
            Element::Cu => None,
            Element::Zn => None,
            Element::Ga => Some(8),
            Element::Ge => Some(8),
            Element::As => Some(8),
            Element::Se => Some(8),
            Element::Br => Some(8),
            Element::Kr => Some(8),
            Element::Rb => Some(8),
            Element::Sr => Some(8),
            Element::Y => None,
            Element::Zr => None,
            Element::Nb => None,
            Element::Mo => None,
            Element::Tc => None,
            Element::Ru => None,
            Element::Rh => None,
            Element::Pd => None,
            Element::Ag => None,
            Element::Cd => None,
            Element::In => Some(8),
            Element::Sn => Some(8),
            Element::Sb => Some(8),
            Element::Te => Some(8),
            Element::I => Some(8),
            Element::Xe => Some(8),
            Element::Cs => Some(8),
            Element::Ba => Some(8),
            Element::La => None,
            Element::Ce => None,
            Element::Pr => None,
            Element::Nd => None,
            Element::Pm => None,
            Element::Sm => None,
            Element::Eu => None,
            Element::Gd => None,
            Element::Tb => None,
            Element::Dy => None,
            Element::Ho => None,
            Element::Er => None,
            Element::Tm => None,
            Element::Yb => None,
            Element::Lu => None,
            Element::Hf => None,
            Element::Ta => None,
            Element::W => None,
            Element::Re => None,
            Element::Os => None,
            Element::Ir => None,
            Element::Pt => None,
            Element::Au => None,
            Element::Hg => None,
            Element::Tl => Some(8),
            Element::Pb => Some(8),
            Element::Bi => Some(8),
            Element::Po => Some(8),
            Element::At => Some(8),
            Element::Rn => Some(8),
            Element::Fr => Some(8),
            Element::Ra => Some(8),
            Element::Ac => None,
            Element::Th => None,
            Element::Pa => None,
            Element::U => None,
            Element::Np => None,
            Element::Pu => None,
            Element::Am => None,
            Element::Cm => None,
            Element::Bk => None,
            Element::Cf => None,
            Element::Es => None,
            Element::Fm => None,
            Element::Md => None,
            Element::No => None,
            Element::Lr => None,
            Element::Rf => None,
            Element::Db => None,
            Element::Sg => None,
            Element::Bh => None,
            Element::Hs => None,
            Element::Mt => None,
            Element::Ds => None,
            Element::Rg => None,
            Element::Cn => None,
            Element::Nh => Some(8),
            Element::Fl => Some(8),
            Element::Mc => Some(8),
            Element::Lv => Some(8),
            Element::Ts => Some(8),
            Element::Og => Some(8),
        }
    }

    /// The symbol as two characters; a one-letter symbol ends in a space.
    pub open spec fn spec_symbol_pair(self) -> (char, char) {
        match self {
            Element::H => ('H', ' '),
            Element::He => ('H', 'e'),
            Element::Li => ('L', 'i'),
            Element::Be => ('B', 'e'),
            Element::B => ('B', ' '),
            Element::C => ('C', ' '),
            Element::N => ('N', ' '),
            Element::O => ('O', ' '),
            Element::F => ('F', ' '),
            Element::Ne => ('N', 'e'),
            Element::Na => ('N', 'a'),
            Element::Mg => ('M', 'g'),
            Element::Al => ('A', 'l'),
            Element::Si => ('S', 'i'),
            Element::P => ('P', ' '),
            Element::S => ('S', ' '),
            Element::Cl => ('C', 'l'),
            Element::Ar => ('A', 'r'),
            Element::K => ('K', ' '),
            Element::Ca => ('C', 'a'),
            Element::Sc => ('S', 'c'),
            Element::Ti => ('T', 'i'),
            Element::V => ('V', ' '),
            Element::Cr => ('C', 'r'),
            Element::Mn => ('M', 'n'),
            Element::Fe => ('F', 'e'),
            Element::Co => ('C', 'o'),
            Element::Ni => ('N', 'i'),
            Element::Cu => ('C', 'u'),
            Element::Zn => ('Z', 'n'),
            Element::Ga => ('G', 'a'),
            Element::Ge => ('G', 'e'),
            Element::As => ('A', 's'),
            Element::Se => ('S', 'e'),
            Element::Br => ('B', 'r'),
            Element::Kr => ('K', 'r'),
            Element::Rb => ('R', 'b'),
            Element::Sr => ('S', 'r'),
            Element::Y => ('Y', ' '),
            Element::Zr => ('Z', 'r'),
            Element::Nb => ('N', 'b'),
            Element::Mo => ('M', 'o'),
            Element::Tc => ('T', 'c'),
            Element::Ru => ('R', 'u'),
            Element::Rh => ('R', 'h'),
            Element::Pd => ('P', 'd'),
            Element::Ag => ('A', 'g'),
            Element::Cd => ('C', 'd'),
            Element::In => ('I', 'n'),
            Element::Sn => ('S', 'n'),
            Element::Sb => ('S', 'b'),
            Element::Te => ('T', 'e'),
            Element::I => ('I', ' '),
            Element::Xe => ('X', 'e'),
            Element::Cs => ('C', 's'),
            Element::Ba => ('B', 'a'),
            Element::La => ('L', 'a'),
            Element::Ce => ('C', 'e'),
            Element::Pr => ('P', 'r'),
            Element::Nd => ('N', 'd'),
            Element::Pm => ('P', 'm'),
            Element::Sm => ('S', 'm'),
            Element::Eu => ('E', 'u'),
            Element::Gd => ('G', 'd'),
            Element::Tb => ('T', 'b'),
            Element::Dy => ('D', 'y'),
            Element::Ho => ('H', 'o'),
            Element::Er => ('E', 'r'),
            Element::Tm => ('T', 'm'),
            Element::Yb => ('Y', 'b'),
            Element::Lu => ('L', 'u'),
            Element::Hf => ('H', 'f'),
            Element::Ta => ('T', 'a'),
            Element::W => ('W', ' '),
            Element::Re => ('R', 'e'),
            Element::Os => ('O', 's'),
            Element::Ir => ('I', 'r'),
            Element::Pt => ('P', 't'),
            Element::Au => ('A', 'u'),
            Element::Hg => ('H', 'g'),
            Element::Tl => ('T', 'l'),
            Element::Pb => ('P', 'b'),
            Element::Bi => ('B', 'i'),
            Element::Po => ('P', 'o'),
            Element::At => ('A', 't'),
            Element::Rn => ('R', 'n'),
            Element::Fr => ('F', 'r'),
            Element::Ra => ('R', 'a'),
            Element::Ac => ('A', 'c'),
            Element::Th => ('T', 'h'),
            Element::Pa => ('P', 'a'),
            Element::U => ('U', ' '),
            Element::Np => ('N', 'p'),
            Element::Pu => ('P', 'u'),
            Element::Am => ('A', 'm'),
            Element::Cm => ('C', 'm'),
            Element::Bk => ('B', 'k'),
            Element::Cf => ('C', 'f'),
            Element::Es => ('E', 's'),
            Element::Fm => ('F', 'm'),
            Element::Md => ('M', 'd'),
            Element::No => ('N', 'o'),
            Element::Lr => ('L', 'r'),
            Element::Rf => ('R', 'f'),
            Element::Db => ('D', 'b'),
            Element::Sg => ('S', 'g'),
            Element::Bh => ('B', 'h'),
            Element::Hs => ('H', 's'),
            Element::Mt => ('M', 't'),
            Element::Ds => ('D', 's'),
            Element::Rg => ('R', 'g'),
            Element::Cn => ('C', 'n'),
            Element::Nh => ('N', 'h'),
            Element::Fl => ('F', 'l'),
            Element::Mc => ('M', 'c'),
            Element::Lv => ('L', 'v'),
            Element::Ts => ('T', 's'),
            Element::Og => ('O', 'g'),
        }
    }

    pub fn symbol_pair(self) -> (r: (char, char))
        ensures
            r == self.spec_symbol_pair(),
    {
        match self {
            Element::H => ('H', ' '),
            Element::He => ('H', 'e'),
            Element::Li => ('L', 'i'),
            Element::Be => ('B', 'e'),
            Element::B => ('B', ' '),
            Element::C => ('C', ' '),
            Element::N => ('N', ' '),
            Element::O => ('O', ' '),
            Element::F => ('F', ' '),
            Element::Ne => ('N', 'e'),
            Element::Na => ('N', 'a'),
            Element::Mg => ('M', 'g'),
            Element::Al => ('A', 'l'),
            Element::Si => ('S', 'i'),
            Element::P => ('P', ' '),
            Element::S => ('S', ' '),
            Element::Cl => ('C', 'l'),
            Element::Ar => ('A', 'r'),
            Element::K => ('K', ' '),
            Element::Ca => ('C', 'a'),
            Element::Sc => ('S', 'c'),
            Element::Ti => ('T', 'i'),
            Element::V => ('V', ' '),
            Element::Cr => ('C', 'r'),
            Element::Mn => ('M', 'n'),
            Element::Fe => ('F', 'e'),
            Element::Co => ('C', 'o'),
            Element::Ni => ('N', 'i'),
            Element::Cu => ('C', 'u'),
            Element::Zn => ('Z', 'n'),
            Element::Ga => ('G', 'a'),
            Element::Ge => ('G', 'e'),
            Element::As => ('A', 's'),
            Element::Se => ('S', 'e'),
            Element::Br => ('B', 'r'),
            Element::Kr => ('K', 'r'),
            Element::Rb => ('R', 'b'),
            Element::Sr => ('S', 'r'),
            Element::Y => ('Y', ' '),
            Element::Zr => ('Z', 'r'),
            Element::Nb => ('N', 'b'),
            Element::Mo => ('M', 'o'),
            Element::Tc => ('T', 'c'),
            Element::Ru => ('R', 'u'),
            Element::Rh => ('R', 'h'),
            Element::Pd => ('P', 'd'),
            Element::Ag => ('A', 'g'),
            Element::Cd => ('C', 'd'),
            Element::In => ('I', 'n'),
            Element::Sn => ('S', 'n'),
            Element::Sb => ('S', 'b'),
            Element::Te => ('T', 'e'),
            Element::I => ('I', ' '),
            Element::Xe => ('X', 'e'),
            Element::Cs => ('C', 's'),
            Element::Ba => ('B', 'a'),
            Element::La => ('L', 'a'),
            Element::Ce => ('C', 'e'),
            Element::Pr => ('P', 'r'),
            Element::Nd => ('N', 'd'),
            Element::Pm => ('P', 'm'),
            Element::Sm => ('S', 'm'),
            Element::Eu => ('E', 'u'),
            Element::Gd => ('G', 'd'),
            Element::Tb => ('T', 'b'),
            Element::Dy => ('D', 'y'),
            Element::Ho => ('H', 'o'),
            Element::Er => ('E', 'r'),
            Element::Tm => ('T', 'm'),
            Element::Yb => ('Y', 'b'),
            Element::Lu => ('L', 'u'),
            Element::Hf => ('H', 'f'),
            Element::Ta => ('T', 'a'),
            Element::W => ('W', ' '),
            Element::Re => ('R', 'e'),
            Element::Os => ('O', 's'),
            Element::Ir => ('I', 'r'),
            Element::Pt => ('P', 't'),
            Element::Au => ('A', 'u'),
            Element::Hg => ('H', 'g'),
            Element::Tl => ('T', 'l'),
            Element::Pb => ('P', 'b'),
            Element::Bi => ('B', 'i'),
            Element::Po => ('P', 'o'),
            Element::At => ('A', 't'),
            Element::Rn => ('R', 'n'),
            Element::Fr => ('F', 'r'),
            Element::Ra => ('R', 'a'),
            Element::Ac => ('A', 'c'),
            Element::Th => ('T', 'h'),
            Element::Pa => ('P', 'a'),
            Element::U => ('U', ' '),
            Element::Np => ('N', 'p'),
            Element::Pu => ('P', 'u'),
            Element::Am => ('A', 'm'),
            Element::Cm => ('C', 'm'),
            Element::Bk => ('B', 'k'),
            Element::Cf => ('C', 'f'),
            Element::Es => ('E', 's'),
            Element::Fm => ('F', 'm'),
            Element::Md => ('M', 'd'),
            Element::No => ('N', 'o'),
            Element::Lr => ('L', 'r'),
            Element::Rf => ('R', 'f'),
            Element::Db => ('D', 'b'),
            Element::Sg => ('S', 'g'),
            Element::Bh => ('B', 'h'),
            Element::Hs => ('H', 's'),
            Element::Mt => ('M', 't'),
            Element::Ds => ('D', 's'),
            Element::Rg => ('R', 'g'),
            Element::Cn => ('C', 'n'),
            Element::Nh => ('N', 'h'),
            Element::Fl => ('F', 'l'),
            Element::Mc => ('M', 'c'),
            Element::Lv => ('L', 'v'),
            Element::Ts => ('T', 's'),
            Element::Og => ('O', 'g'),
        }
    }

}

/// The element with atomic number `n`, if there is one.
pub open spec fn element_with_number(n: int) -> Option<Element> {
    if n == 1 {
        Some(Element::H)
    }
    else if n == 2 {
        Some(Element::He)
    }
    else if n == 3 {
        Some(Element::Li)
    }
    else if n == 4 {
        Some(Element::Be)
    }
    else if n == 5 {
        Some(Element::B)
    }
    else if n == 6 {
        Some(Element::C)
    }
    else if n == 7 {
        Some(Element::N)
    }
    else if n == 8 {
        Some(Element::O)
    }
    else if n == 9 {
        Some(Element::F)
    }
    else if n == 10 {
        Some(Element::Ne)
    }
    else if n == 11 {
        Some(Element::Na)
    }
    else if n == 12 {
        Some(Element::Mg)
    }
    else if n == 13 {
        Some(Element::Al)
    }
    else if n == 14 {
        Some(Element::Si)
    }
    else if n == 15 {
        Some(Element::P)
    }
    else if n == 16 {
        Some(Element::S)
    }
    else if n == 17 {
        Some(Element::Cl)
    }
    else if n == 18 {
        Some(Element::Ar)
    }
    else if n == 19 {
        Some(Element::K)
    }
    else if n == 20 {
        Some(Element::Ca)
    }
    else if n == 21 {
        Some(Element::Sc)
    }
    else if n == 22 {
        Some(Element::Ti)
    }
    else if n == 23 {
        Some(Element::V)
    }
    else if n == 24 {
        Some(Element::Cr)
    }
    else if n == 25 {
        Some(Element::Mn)
    }
    else if n == 26 {
        Some(Element::Fe)
    }
    else if n == 27 {
        Some(Element::Co)
    }
    else if n == 28 {
        Some(Element::Ni)
    }
    else if n == 29 {
        Some(Element::Cu)
    }
    else if n == 30 {
        Some(Element::Zn)
    }
    else if n == 31 {
        Some(Element::Ga)
    }
    else if n == 32 {
        Some(Element::Ge)
    }
    else if n == 33 {
        Some(Element::As)
    }
    else if n == 34 {
        Some(Element::Se)
    }
    else if n == 35 {
        Some(Element::Br)
    }
    else if n == 36 {
        Some(Element::Kr)
    }
    else if n == 37 {
        Some(Element::Rb)
    }
    else if n == 38 {
        Some(Element::Sr)
    }
    else if n == 39 {
        Some(Element::Y)
    }
    else if n == 40 {
        Some(Element::Zr)
    }
    else if n == 41 {
        Some(Element::Nb)
    }
    else if n == 42 {
        Some(Element::Mo)
    }
    else if n == 43 {
        Some(Element::Tc)
    }
    else if n == 44 {
        Some(Element::Ru)
    }
    else if n == 45 {
        Some(Element::Rh)
    }
    else if n == 46 {
        Some(Element::Pd)
    }
    else if n == 47 {
        Some(Element::Ag)
    }
    else if n == 48 {
        Some(Element::Cd)
    }
    else if n == 49 {
        Some(Element::In)
    }
    else if n == 50 {
        Some(Element::Sn)
    }
    else if n == 51 {
        Some(Element::Sb)
    }
    else if n == 52 {
        Some(Element::Te)
    }
    else if n == 53 {
        Some(Element::I)
    }
    else if n == 54 {
        Some(Element::Xe)
    }
    else if n == 55 {
        Some(Element::Cs)
    }
    else if n == 56 {
        Some(Element::Ba)
    }
    else if n == 57 {
        Some(Element::La)
    }
    else if n == 58 {
        Some(Element::Ce)
    }
    else if n == 59 {
        Some(Element::Pr)
    }
    else if n == 60 {
        Some(Element::Nd)
    }
    else if n == 61 {
        Some(Element::Pm)
    }
    else if n == 62 {
        Some(Element::Sm)
    }
    else if n == 63 {
        Some(Element::Eu)
    }
    else if n == 64 {
        Some(Element::Gd)
    }
    else if n == 65 {
        Some(Element::Tb)
    }
    else if n == 66 {
        Some(Element::Dy)
    }
    else if n == 67 {
        Some(Element::Ho)
    }
    else if n == 68 {
        Some(Element::Er)
    }
    else if n == 69 {
        Some(Element::Tm)
    }
    else if n == 70 {
        Some(Element::Yb)
    }
    else if n == 71 {
        Some(Element::Lu)
    }
    else if n == 72 {
        Some(Element::Hf)
    }
    else if n == 73 {
        Some(Element::Ta)
    }
    else if n == 74 {
        Some(Element::W)
    }
    else if n == 75 {
        Some(Element::Re)
    }
    else if n == 76 {
        Some(Element::Os)
    }
    else if n == 77 {
        Some(Element::Ir)
    }
    else if n == 78 {
        Some(Element::Pt)
    }
    else if n == 79 {
        Some(Element::Au)
    }
    else if n == 80 {
        Some(Element::Hg)
    }
    else if n == 81 {
        Some(Element::Tl)
    }
    else if n == 82 {
        Some(Element::Pb)
    }
    else if n == 83 {
        Some(Element::Bi)
    }
    else if n == 84 {
        Some(Element::Po)
    }
    else if n == 85 {
        Some(Element::At)
    }
    else if n == 86 {
        Some(Element::Rn)
    }
    else if n == 87 {
        Some(Element::Fr)
    }
    else if n == 88 {
        Some(Element::Ra)
    }
    else if n == 89 {
        Some(Element::Ac)
    }
    else if n == 90 {
        Some(Element::Th)
    }
    else if n == 91 {
        Some(Element::Pa)
    }
    else if n == 92 {
        Some(Element::U)
    }
    else if n == 93 {
        Some(Element::Np)
    }
    else if n == 94 {
        Some(Element::Pu)
    }
    else if n == 95 {
        Some(Element::Am)
    }
    else if n == 96 {
        Some(Element::Cm)
    }
    else if n == 97 {
        Some(Element::Bk)
    }
    else if n == 98 {
        Some(Element::Cf)
    }
    else if n == 99 {
        Some(Element::Es)
    }
    else if n == 100 {
        Some(Element::Fm)
    }
    else if n == 101 {
        Some(Element::Md)
    }
    else if n == 102 {
        Some(Element::No)
    }
    else if n == 103 {
        Some(Element::Lr)
    }
    else if n == 104 {
        Some(Element::Rf)
    }
    else if n == 105 {
        Some(Element::Db)
    }
    else if n == 106 {
        Some(Element::Sg)
    }
    else if n == 107 {
        Some(Element::Bh)
    }
    else if n == 108 {
        Some(Element::Hs)
    }
    else if n == 109 {
        Some(Element::Mt)
    }
    else if n == 110 {
        Some(Element::Ds)
    }
    else if n == 111 {
        Some(Element::Rg)
    }
    else if n == 112 {
        Some(Element::Cn)
    }
    else if n == 113 {
        Some(Element::Nh)
    }
    else if n == 114 {
        Some(Element::Fl)
    }
    else if n == 115 {
        Some(Element::Mc)
    }
    else if n == 116 {
        Some(Element::Lv)
    }
    else if n == 117 {
        Some(Element::Ts)
    }
    else if n == 118 {
        Some(Element::Og)
    }
    else {
        None
    }
}

/// The element whose symbol is the pair `(a, b)`, a one-letter symbol ending in a space.
pub open spec fn element_with_symbol_pair(a: char, b: char) -> Option<Element> {
    if a == 'H' && b == ' ' {
        Some(Element::H)
    }
    else if a == 'H' && b == 'e' {
        Some(Element::He)
    }
    else if a == 'L' && b == 'i' {
        Some(Element::Li)
    }
    else if a == 'B' && b == 'e' {
        Some(Element::Be)
    }
    else if a == 'B' && b == ' ' {
        Some(Element::B)
    }
    else if a == 'C' && b == ' ' {
        Some(Element::C)
    }
    else if a == 'N' && b == ' ' {
        Some(Element::N)
    }
    else if a == 'O' && b == ' ' {
        Some(Element::O)
    }
    else if a == 'F' && b == ' ' {
        Some(Element::F)
    }
    else if a == 'N' && b == 'e' {
        Some(Element::Ne)
    }
    else if a == 'N' && b == 'a' {
        Some(Element::Na)
    }
    else if a == 'M' && b == 'g' {
        Some(Element::Mg)
    }
    else if a == 'A' && b == 'l' {
        Some(Element::Al)
    }
    else if a == 'S' && b == 'i' {
        Some(Element::Si)
    }
    else if a == 'P' && b == ' ' {
        Some(Element::P)
    }
    else if a == 'S' && b == ' ' {
        Some(Element::S)
    }
    else if a == 'C' && b == 'l' {
        Some(Element::Cl)
    }
    else if a == 'A' && b == 'r' {
        Some(Element::Ar)
    }
    else if a == 'K' && b == ' ' {
        Some(Element::K)
    }
    else if a == 'C' && b == 'a' {
        Some(Element::Ca)
    }
    else if a == 'S' && b == 'c' {
        Some(Element::Sc)
    }
    else if a == 'T' && b == 'i' {
        Some(Element::Ti)
    }
    else if a == 'V' && b == ' ' {
        Some(Element::V)
    }
    else if a == 'C' && b == 'r' {
        Some(Element::Cr)
    }
    else if a == 'M' && b == 'n' {
        Some(Element::Mn)
    }
    else if a == 'F' && b == 'e' {
        Some(Element::Fe)
    }
    else if a == 'C' && b == 'o' {
        Some(Element::Co)
    }
    else if a == 'N' && b == 'i' {
        Some(Element::Ni)
    }
    else if a == 'C' && b == 'u' {
        Some(Element::Cu)
    }
    else if a == 'Z' && b == 'n' {
        Some(Element::Zn)
    }
    else if a == 'G' && b == 'a' {
        Some(Element::Ga)
    }
    else if a == 'G' && b == 'e' {
        Some(Element::Ge)
    }
    else if a == 'A' && b == 's' {
        Some(Element::As)
    }
    else if a == 'S' && b == 'e' {
        Some(Element::Se)
    }
    else if a == 'B' && b == 'r' {
        Some(Element::Br)
    }
    else if a == 'K' && b == 'r' {
        Some(Element::Kr)
    }
    else if a == 'R' && b == 'b' {
        Some(Element::Rb)
    }
    else if a == 'S' && b == 'r' {
        Some(Element::Sr)
    }
    else if a == 'Y' && b == ' ' {
        Some(Element::Y)
    }
    else if a == 'Z' && b == 'r' {
        Some(Element::Zr)
    }
    else if a == 'N' && b == 'b' {
        Some(Element::Nb)
    }
    else if a == 'M' && b == 'o' {
        Some(Element::Mo)
    }
    else if a == 'T' && b == 'c' {
        Some(Element::Tc)
    }
    else if a == 'R' && b == 'u' {
        Some(Element::Ru)
    }
    else if a == 'R' && b == 'h' {
        Some(Element::Rh)
    }
    else if a == 'P' && b == 'd' {
        Some(Element::Pd)
    }
    else if a == 'A' && b == 'g' {
        Some(Element::Ag)
    }
    else if a == 'C' && b == 'd' {
        Some(Element::Cd)
    }
    else if a == 'I' && b == 'n' {
        Some(Element::In)
    }
    else if a == 'S' && b == 'n' {
        Some(Element::Sn)
    }
    else if a == 'S' && b == 'b' {
        Some(Element::Sb)
    }
    else if a == 'T' && b == 'e' {
        Some(Element::Te)
    }
    else if a == 'I' && b == ' ' {
        Some(Element::I)
    }
    else if a == 'X' && b == 'e' {
        Some(Element::Xe)
    }
    else if a == 'C' && b == 's' {
        Some(Element::Cs)
    }
    else if a == 'B' && b == 'a' {
        Some(Element::Ba)
    }
    else if a == 'L' && b == 'a' {
        Some(Element::La)
    }
    else if a == 'C' && b == 'e' {
        Some(Element::Ce)
    }
    else if a == 'P' && b == 'r' {
        Some(Element::Pr)
    }
    else if a == 'N' && b == 'd' {
        Some(Element::Nd)
    }
    else if a == 'P' && b == 'm' {
        Some(Element::Pm)
    }
    else if a == 'S' && b == 'm' {
        Some(Element::Sm)
    }
    else if a == 'E' && b == 'u' {
        Some(Element::Eu)
    }
    else if a == 'G' && b == 'd' {
        Some(Element::Gd)
    }
    else if a == 'T' && b == 'b' {
        Some(Element::Tb)
    }
    else if a == 'D' && b == 'y' {
        Some(Element::Dy)
    }
    else if a == 'H' && b == 'o' {
        Some(Element::Ho)
    }
    else if a == 'E' && b == 'r' {
        Some(Element::Er)
    }
    else if a == 'T' && b == 'm' {
        Some(Element::Tm)
    }
    else if a == 'Y' && b == 'b' {
        Some(Element::Yb)
    }
    else if a == 'L' && b == 'u' {
        Some(Element::Lu)
    }
    else if a == 'H' && b == 'f' {
        Some(Element::Hf)
    }
    else if a == 'T' && b == 'a' {
        Some(Element::Ta)
    }
    else if a == 'W' && b == ' ' {
        Some(Element::W)
    }
    else if a == 'R' && b == 'e' {
        Some(Element::Re)
    }
    else if a == 'O' && b == 's' {
        Some(Element::Os)
    }
    else if a == 'I' && b == 'r' {
        Some(Element::Ir)
    }
    else if a == 'P' && b == 't' {
        Some(Element::Pt)
    }
    else if a == 'A' && b == 'u' {
        Some(Element::Au)
    }
    else if a == 'H' && b == 'g' {
        Some(Element::Hg)
    }
    else if a == 'T' && b == 'l' {
        Some(Element::Tl)
    }
    else if a == 'P' && b == 'b' {
        Some(Element::Pb)
    }
    else if a == 'B' && b == 'i' {
        Some(Element::Bi)
    }
    else if a == 'P' && b == 'o' {
        Some(Element::Po)
    }
    else if a == 'A' && b == 't' {
        Some(Element::At)
    }
    else if a == 'R' && b == 'n' {
        Some(Element::Rn)
    }
    else if a == 'F' && b == 'r' {
        Some(Element::Fr)
    }
    else if a == 'R' && b == 'a' {
        Some(Element::Ra)
    }
    else if a == 'A' && b == 'c' {
        Some(Element::Ac)
    }
    else if a == 'T' && b == 'h' {
        Some(Element::Th)
    }
    else if a == 'P' && b == 'a' {
        Some(Element::Pa)
    }
    else if a == 'U' && b == ' ' {
        Some(Element::U)
    }
    else if a == 'N' && b == 'p' {
        Some(Element::Np)
    }
    else if a == 'P' && b == 'u' {
        Some(Element::Pu)
    }
    else if a == 'A' && b == 'm' {
        Some(Element::Am)
    }
    else if a == 'C' && b == 'm' {
        Some(Element::Cm)
    }
    else if a == 'B' && b == 'k' {
        Some(Element::Bk)
    }
    else if a == 'C' && b == 'f' {
        Some(Element::Cf)
    }
    else if a == 'E' && b == 's' {
        Some(Element::Es)
    }
    else if a == 'F' && b == 'm' {
        Some(Element::Fm)
    }
    else if a == 'M' && b == 'd' {
        Some(Element::Md)
    }
    else if a == 'N' && b == 'o' {
        Some(Element::No)
    }
    else if a == 'L' && b == 'r' {
        Some(Element::Lr)
    }
    else if a == 'R' && b == 'f' {
        Some(Element::Rf)
    }
    else if a == 'D' && b == 'b' {
        Some(Element::Db)
    }
    else if a == 'S' && b == 'g' {
        Some(Element::Sg)
    }
    else if a == 'B' && b == 'h' {
        Some(Element::Bh)
    }
    else if a == 'H' && b == 's' {
        Some(Element::Hs)
    }
    else if a == 'M' && b == 't' {
        Some(Element::Mt)
    }
    else if a == 'D' && b == 's' {
        Some(Element::Ds)
    }
    else if a == 'R' && b == 'g' {
        Some(Element::Rg)
    }
    else if a == 'C' && b == 'n' {
        Some(Element::Cn)
    }
    else if a == 'N' && b == 'h' {
        Some(Element::Nh)
    }
    else if a == 'F' && b == 'l' {
        Some(Element::Fl)
    }
    else if a == 'M' && b == 'c' {
        Some(Element::Mc)
    }
    else if a == 'L' && b == 'v' {
        Some(Element::Lv)
    }
    else if a == 'T' && b == 's' {
        Some(Element::Ts)
    }
    else if a == 'O' && b == 'g' {
        Some(Element::Og)
    }
    else {
        None
    }
}

pub fn lookup_number(n: u16) -> (r: Option<Element>)
    ensures
        r == element_with_number(n as int),
{
    match n {
        1 => Some(Element::H),
        2 => Some(Element::He),
        3 => Some(Element::Li),
        4 => Some(Element::Be),
        5 => Some(Element::B),
        6 => Some(Element::C),
        7 => Some(Element::N),
        8 => Some(Element::O),
        9 => Some(Element::F),
        10 => Some(Element::Ne),
        11 => Some(Element::Na),
        12 => Some(Element::Mg),
        13 => Some(Element::Al),
        14 => Some(Element::Si),
        15 => Some(Element::P),
        16 => Some(Element::S),
        17 => Some(Element::Cl),
        18 => Some(Element::Ar),
        19 => Some(Element::K),
        20 => Some(Element::Ca),
        21 => Some(Element::Sc),
        22 => Some(Element::Ti),
        23 => Some(Element::V),
        24 => Some(Element::Cr),
        25 => Some(Element::Mn),
        26 => Some(Element::Fe),
        27 => Some(Element::Co),
        28 => Some(Element::Ni),
        29 => Some(Element::Cu),
        30 => Some(Element::Zn),
        31 => Some(Element::Ga),
        32 => Some(Element::Ge),
        33 => Some(Element::As),
        34 => Some(Element::Se),
        35 => Some(Element::Br),
        36 => Some(Element::Kr),
        37 => Some(Element::Rb),
        38 => Some(Element::Sr),
        39 => Some(Element::Y),
        40 => Some(Element::Zr),
        41 => Some(Element::Nb),
        42 => Some(Element::Mo),
        43 => Some(Element::Tc),
        44 => Some(Element::Ru),
        45 => Some(Element::Rh),
        46 => Some(Element::Pd),
        47 => Some(Element::Ag),
        48 => Some(Element::Cd),
        49 => Some(Element::In),
        50 => Some(Element::Sn),
        51 => Some(Element::Sb),
        52 => Some(Element::Te),
        53 => Some(Element::I),
        54 => Some(Element::Xe),
        55 => Some(Element::Cs),
        56 => Some(Element::Ba),
        57 => Some(Element::La),
        58 => Some(Element::Ce),
        59 => Some(Element::Pr),
        60 => Some(Element::Nd),
        61 => Some(Element::Pm),
        62 => Some(Element::Sm),
        63 => Some(Element::Eu),
        64 => Some(Element::Gd),
        65 => Some(Element::Tb),
        66 => Some(Element::Dy),
        67 => Some(Element::Ho),
        68 => Some(Element::Er),
        69 => Some(Element::Tm),
        70 => Some(Element::Yb),
        71 => Some(Element::Lu),
        72 => Some(Element::Hf),
        73 => Some(Element::Ta),
        74 => Some(Element::W),
        75 => Some(Element::Re),
        76 => Some(Element::Os),
        77 => Some(Element::Ir),
        78 => Some(Element::Pt),
        79 => Some(Element::Au),
        80 => Some(Element::Hg),
        81 => Some(Element::Tl),
        82 => Some(Element::Pb),
        83 => Some(Element::Bi),
        84 => Some(Element::Po),
        85 => Some(Element::At),
        86 => Some(Element::Rn),
        87 => Some(Element::Fr),
        88 => Some(Element::Ra),
        89 => Some(Element::Ac),
        90 => Some(Element::Th),
        91 => Some(Element::Pa),
        92 => Some(Element::U),
        93 => Some(Element::Np),
        94 => Some(Element::Pu),
        95 => Some(Element::Am),
        96 => Some(Element::Cm),
        97 => Some(Element::Bk),
        98 => Some(Element::Cf),
        99 => Some(Element::Es),
        100 => Some(Element::Fm),
        101 => Some(Element::Md),
        102 => Some(Element::No),
        103 => Some(Element::Lr),
        104 => Some(Element::Rf),
        105 => Some(Element::Db),
        106 => Some(Element::Sg),
        107 => Some(Element::Bh),
        108 => Some(Element::Hs),
        109 => Some(Element::Mt),
        110 => Some(Element::Ds),
        111 => Some(Element::Rg),
        112 => Some(Element::Cn),
        113 => Some(Element::Nh),
        114 => Some(Element::Fl),
        115 => Some(Element::Mc),
        116 => Some(Element::Lv),
        117 => Some(Element::Ts),
        118 => Some(Element::Og),
        _ => None,
    }
}

pub fn lookup_symbol_pair(a: char, b: char) -> (r: Option<Element>)
    ensures
        r == element_with_symbol_pair(a, b),
{
    match (a, b) {
        ('H', ' ') => Some(Element::H),
        ('H', 'e') => Some(Element::He),
        ('L', 'i') => Some(Element::Li),
        ('B', 'e') => Some(Element::Be),
        ('B', ' ') => Some(Element::B),
        ('C', ' ') => Some(Element::C),
        ('N', ' ') => Some(Element::N),
        ('O', ' ') => Some(Element::O),
        ('F', ' ') => Some(Element::F),
        ('N', 'e') => Some(Element::Ne),
        ('N', 'a') => Some(Element::Na),
        ('M', 'g') => Some(Element::Mg),
        ('A', 'l') => Some(Element::Al),
        ('S', 'i') => Some(Element::Si),
        ('P', ' ') => Some(Element::P),
        ('S', ' ') => Some(Element::S),
        ('C', 'l') => Some(Element::Cl),
        ('A', 'r') => Some(Element::Ar),
        ('K', ' ') => Some(Element::K),
        ('C', 'a') => Some(Element::Ca),
        ('S', 'c') => Some(Element::Sc),
        ('T', 'i') => Some(Element::Ti),
        ('V', ' ') => Some(Element::V),
        ('C', 'r') => Some(Element::Cr),
        ('M', 'n') => Some(Element::Mn),
        ('F', 'e') => Some(Element::Fe),
        ('C', 'o') => Some(Element::Co),
        ('N', 'i') => Some(Element::Ni),
        ('C', 'u') => Some(Element::Cu),
        ('Z', 'n') => Some(Element::Zn),
        ('G', 'a') => Some(Element::Ga),
        ('G', 'e') => Some(Element::Ge),
        ('A', 's') => Some(Element::As),
        ('S', 'e') => Some(Element::Se),
        ('B', 'r') => Some(Element::Br),
        ('K', 'r') => Some(Element::Kr),
        ('R', 'b') => Some(Element::Rb),
        ('S', 'r') => Some(Element::Sr),
        ('Y', ' ') => Some(Element::Y),
        ('Z', 'r') => Some(Element::Zr),
        ('N', 'b') => Some(Element::Nb),
        ('M', 'o') => Some(Element::Mo),
        ('T', 'c') => Some(Element::Tc),
        ('R', 'u') => Some(Element::Ru),
        ('R', 'h') => Some(Element::Rh),
        ('P', 'd') => Some(Element::Pd),
        ('A', 'g') => Some(Element::Ag),
        ('C', 'd') => Some(Element::Cd),
        ('I', 'n') => Some(Element::In),
        ('S', 'n') => Some(Element::Sn),
        ('S', 'b') => Some(Element::Sb),
        ('T', 'e') => Some(Element::Te),
        ('I', ' ') => Some(Element::I),
        ('X', 'e') => Some(Element::Xe),
        ('C', 's') => Some(Element::Cs),
        ('B', 'a') => Some(Element::Ba),
        ('L', 'a') => Some(Element::La),
        ('C', 'e') => Some(Element::Ce),
        ('P', 'r') => Some(Element::Pr),
        ('N', 'd') => Some(Element::Nd),
        ('P', 'm') => Some(Element::Pm),
        ('S', 'm') => Some(Element::Sm),
        ('E', 'u') => Some(Element::Eu),
        ('G', 'd') => Some(Element::Gd),
        ('T', 'b') => Some(Element::Tb),
        ('D', 'y') => Some(Element::Dy),
        ('H', 'o') => Some(Element::Ho),
        ('E', 'r') => Some(Element::Er),
        ('T', 'm') => Some(Element::Tm),
        ('Y', 'b') => Some(Element::Yb),
        ('L', 'u') => Some(Element::Lu),
        ('H', 'f') => Some(Element::Hf),
        ('T', 'a') => Some(Element::Ta),
        ('W', ' ') => Some(Element::W),
        ('R', 'e') => Some(Element::Re),
        ('O', 's') => Some(Element::Os),
        ('I', 'r') => Some(Element::Ir),
        ('P', 't') => Some(Element::Pt),
        ('A', 'u') => Some(Element::Au),
        ('H', 'g') => Some(Element::Hg),
        ('T', 'l') => Some(Element::Tl),
        ('P', 'b') => Some(Element::Pb),
        ('B', 'i') => Some(Element::Bi),
        ('P', 'o') => Some(Element::Po),
        ('A', 't') => Some(Element::At),
        ('R', 'n') => Some(Element::Rn),
        ('F', 'r') => Some(Element::Fr),
        ('R', 'a') => Some(Element::Ra),
        ('A', 'c') => Some(Element::Ac),
        ('T', 'h') => Some(Element::Th),
        ('P', 'a') => Some(Element::Pa),
        ('U', ' ') => Some(Element::U),
        ('N', 'p') => Some(Element::Np),
        ('P', 'u') => Some(Element::Pu),
        ('A', 'm') => Some(Element::Am),
        ('C', 'm') => Some(Element::Cm),
        ('B', 'k') => Some(Element::Bk),
        ('C', 'f') => Some(Element::Cf),
        ('E', 's') => Some(Element::Es),
        ('F', 'm') => Some(Element::Fm),
        ('M', 'd') => Some(Element::Md),
        ('N', 'o') => Some(Element::No),
        ('L', 'r') => Some(Element::Lr),
        ('R', 'f') => Some(Element::Rf),
        ('D', 'b') => Some(Element::Db),
        ('S', 'g') => Some(Element::Sg),
        ('B', 'h') => Some(Element::Bh),
        ('H', 's') => Some(Element::Hs),
        ('M', 't') => Some(Element::Mt),
        ('D', 's') => Some(Element::Ds),
        ('R', 'g') => Some(Element::Rg),
        ('C', 'n') => Some(Element::Cn),
        ('N', 'h') => Some(Element::Nh),
        ('F', 'l') => Some(Element::Fl),
        ('M', 'c') => Some(Element::Mc),
        ('L', 'v') => Some(Element::Lv),
        ('T', 's') => Some(Element::Ts),
        ('O', 'g') => Some(Element::Og),
        _ => None,
    }
}

/// The symbol of `e` as written: one or two letters, the first upper case.
pub open spec fn symbol_of(e: Element) -> Seq<char> {
    let (a, b) = e.spec_symbol_pair();
    if b == ' ' {
        seq![a]
    } else {
        seq![a, b]
    }
}

/// The element whose symbol is exactly `s`, if there is one.
pub open spec fn element_by_symbol(s: Seq<char>) -> Option<Element> {
    if s.len() == 1 {
        element_with_symbol_pair(s[0], ' ')
    } else if s.len() == 2 && s[1] != ' ' {
        element_with_symbol_pair(s[0], s[1])
    } else {
        None
    }
}

/// Every element is found again from its atomic number and from its symbol.
pub proof fn lemma_element_round_trip(e: Element)
    ensures
        element_with_number(e.spec_atomic_number() as int) == Some(e),
        element_by_symbol(symbol_of(e)) == Some(e),
{
}

/// Each atomic number from 1 to 118 names an element that reports that number,
/// and no other number names one.
pub proof fn lemma_atomic_number_round_trip(n: int)
    ensures
        1 <= n <= 118 ==> (element_with_number(n) matches Some(e) && e.spec_atomic_number() == n),
        !(1 <= n <= 118) ==> element_with_number(n) is None,
{
}

/// Two elements are the same exactly when their atomic numbers are: the order
/// of elements is the order of their atomic numbers.
pub proof fn lemma_element_identity_is_atomic_number(a: Element, b: Element)
    ensures
        a == b <==> a.spec_atomic_number() == b.spec_atomic_number(),
{
    lemma_element_round_trip(a);
    lemma_element_round_trip(b);
}

/// The outcome of comparing `a` with `b`: equality of elements, or the order of
/// their atomic numbers.
pub open spec fn element_order_outcome(a: Element, b: Element, op: CompareOp) -> Result<bool, Error> {
    let x = a.spec_atomic_number();
    let y = b.spec_atomic_number();
    match op {
        CompareOp::Lt => Ok(x < y),
        CompareOp::Le => Ok(x <= y),
        CompareOp::Eq => Ok(a == b),
        CompareOp::Ne => Ok(a != b),
        CompareOp::Gt => Ok(x > y),
        CompareOp::Ge => Ok(x >= y),
    }
}

/// An element as callers see it.
#[derive(Clone, Copy, Debug, PartialEq, Eq, Hash, Structural)]
pub struct PyElement {
    pub element: Element,
}

impl PyElement {
    /// The element with this atomic number; fails unless it is in 1..=118.
    pub fn new(atomic_number: u16) -> (r: Result<PyElement, Error>)
        ensures
            r == match element_with_number(atomic_number as int) {
                Some(e) => Ok(PyElement { element: e }),
                None => Err(Error::InvalidAtomicNumber),
            },
            r is Ok <==> 1 <= atomic_number <= 118,
    {
        proof {
            lemma_atomic_number_round_trip(atomic_number as int);
        }
        match lookup_number(atomic_number) {
            Some(element) => Ok(PyElement { element }),
            None => Err(Error::InvalidAtomicNumber),
        }
    }

    /// The element with exactly this symbol (case matters); fails for any other string.
    pub fn from_symbol(symbol: &str) -> (r: Result<PyElement, Error>)
        ensures
            r == match element_by_symbol(symbol@) {
                Some(e) => Ok(PyElement { element: e }),
                None => Err(Error::UnknownElementSymbol),
            },
    {
        let len = symbol.unicode_len();
        let found = if len == 1 {
            lookup_symbol_pair(symbol.get_char(0), ' ')
        } else if len == 2 {
            let second = symbol.get_char(1);
            if second == ' ' {
                None
            } else {
                lookup_symbol_pair(symbol.get_char(0), second)
            }
        } else {
            None
        };
        match found {
            Some(element) => Ok(PyElement { element }),
            None => Err(Error::UnknownElementSymbol),
        }
    }

    pub fn from_element(element: Element) -> (r: PyElement)
        ensures
            r.element == element,
    {
        PyElement { element }
    }

    pub fn valence_electrons(&self) -> (r: u8)
        ensures
            r == self.element.spec_valence_electrons(),
    {
        self.element.valence_electrons()
    }

    pub fn atomic_number(&self) -> (r: u16)
        ensures
            r == self.element.spec_atomic_number(),
    {
        self.element.atomic_number()
    }

    /// A hash that is the atomic number.
    pub fn hash_value(&self) -> (r: isize)
        ensures
            r == self.element.spec_atomic_number(),
    {
        self.atomic_number() as isize
    }

    /// Equality of elements, or the order of atomic numbers; never fails.
    pub fn richcmp(&self, other: &PyElement, op: CompareOp) -> (r: Result<bool, Error>)
        ensures
            r == element_order_outcome(self.element, other.element, op),
    {
        let x = self.element.atomic_number();
        let y = other.element.atomic_number();
        let result = match op {
            CompareOp::Lt => x < y,
            CompareOp::Le => x <= y,
            CompareOp::Eq => self.element == other.element,
            CompareOp::Ne => self.element != other.element,
            CompareOp::Gt => x > y,
            CompareOp::Ge => x >= y,
        };
        Ok(result)
    }
}

} // verus!
