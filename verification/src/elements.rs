//! The chemical elements that a scheme can be made for, each with its symbol
//! and its ionisation potential.

use vstd::prelude::*;
use crate::number::{
    decimal_text, exponent_part, fixed_point_text, fixed_text, frac_digits, is_float_text,
    is_negative, lemma_decimal_text_length, lemma_fixed_text, mantissa_value, pow10,
};
use crate::text::{join3, same_text};

verus! {

/// A chemical element, hydrogen to hassium, in the order of the periodic table.
#[derive(Debug, Clone, Copy, PartialEq, Eq, Structural)]
pub enum Elements {
    H,
    He,
    Li,
    Be,
    B,
    C,
    N,
    O,
    F,
    Ne,
    Na,
    Mg,
    Al,
    Si,
    P,
    S,
    Cl,
    Ar,
    K,
    Ca,
    Sc,
    Ti,
    V,
    Cr,
    Mn,
    Fe,
    Co,
    Ni,
    Cu,
    Zn,
    Ga,
    Ge,
    As,
    Se,
    Br,
    Kr,
    Rb,
    Sr,
    Y,
    Zr,
    Nb,
    Mo,
    Tc,
    Ru,
    Rh,
    Pd,
    Ag,
    Cd,
    In,
    Sn,
    Sb,
    Te,
    I,
    Xe,
    Cs,
    Ba,
    La,
    Ce,
    Pr,
    Nd,
    Pm,
    Sm,
    Eu,
    Gd,
    Tb,
    Dy,
    Ho,
    Er,
    Tm,
    Yb,
    Lu,
    Hf,
    Ta,
    W,
    Re,
    Os,
    Ir,
    Pt,
    Au,
    Hg,
    Tl,
    Pb,
    Bi,
    Po,
    At,
    Rn,
    Fr,
    Ra,
    Ac,
    Th,
    Pa,
    U,
    Np,
    Pu,
    Am,
    Cm,
    Bk,
    Cf,
    Es,
    Fm,
    Md,
    No,
    Lr,
    Rf,
    Db,
    Sg,
    Bh,
    Hs,
}

/// How many elements there are.
pub const ELEMENT_COUNT: u8 = 108;

impl Elements {
    /// The symbol of the element.
    pub open spec fn symbol_spec(self) -> Seq<char> {
        match self {
            Elements::H => "H"@,
            Elements::He => "He"@,
            Elements::Li => "Li"@,
            Elements::Be => "Be"@,
            Elements::B => "B"@,
            Elements::C => "C"@,
            Elements::N => "N"@,
            Elements::O => "O"@,
            Elements::F => "F"@,
            Elements::Ne => "Ne"@,
            Elements::Na => "Na"@,
            Elements::Mg => "Mg"@,
            Elements::Al => "Al"@,
            Elements::Si => "Si"@,
            Elements::P => "P"@,
            Elements::S => "S"@,
            Elements::Cl => "Cl"@,
            Elements::Ar => "Ar"@,
            Elements::K => "K"@,
            Elements::Ca => "Ca"@,
            Elements::Sc => "Sc"@,
            Elements::Ti => "Ti"@,
            Elements::V => "V"@,
            Elements::Cr => "Cr"@,
            Elements::Mn => "Mn"@,
            Elements::Fe => "Fe"@,
            Elements::Co => "Co"@,
            Elements::Ni => "Ni"@,
            Elements::Cu => "Cu"@,
            Elements::Zn => "Zn"@,
            Elements::Ga => "Ga"@,
            Elements::Ge => "Ge"@,
            Elements::As => "As"@,
            Elements::Se => "Se"@,
            Elements::Br => "Br"@,
            Elements::Kr => "Kr"@,
            Elements::Rb => "Rb"@,
            Elements::Sr => "Sr"@,
            Elements::Y => "Y"@,
            Elements::Zr => "Zr"@,
            Elements::Nb => "Nb"@,
            Elements::Mo => "Mo"@,
            Elements::Tc => "Tc"@,
            Elements::Ru => "Ru"@,
            Elements::Rh => "Rh"@,
            Elements::Pd => "Pd"@,
            Elements::Ag => "Ag"@,
            Elements::Cd => "Cd"@,
            Elements::In => "In"@,
            Elements::Sn => "Sn"@,
            Elements::Sb => "Sb"@,
            Elements::Te => "Te"@,
            Elements::I => "I"@,
            Elements::Xe => "Xe"@,
            Elements::Cs => "Cs"@,
            Elements::Ba => "Ba"@,
            Elements::La => "La"@,
            Elements::Ce => "Ce"@,
            Elements::Pr => "Pr"@,
            Elements::Nd => "Nd"@,
            Elements::Pm => "Pm"@,
            Elements::Sm => "Sm"@,
            Elements::Eu => "Eu"@,
            Elements::Gd => "Gd"@,
            Elements::Tb => "Tb"@,
            Elements::Dy => "Dy"@,
            Elements::Ho => "Ho"@,
            Elements::Er => "Er"@,
            Elements::Tm => "Tm"@,
            Elements::Yb => "Yb"@,
            Elements::Lu => "Lu"@,
            Elements::Hf => "Hf"@,
            Elements::Ta => "Ta"@,
            Elements::W => "W"@,
            Elements::Re => "Re"@,
            Elements::Os => "Os"@,
            Elements::Ir => "Ir"@,
            Elements::Pt => "Pt"@,
            Elements::Au => "Au"@,
            Elements::Hg => "Hg"@,
            Elements::Tl => "Tl"@,
            Elements::Pb => "Pb"@,
            Elements::Bi => "Bi"@,
            Elements::Po => "Po"@,
            Elements::At => "At"@,
            Elements::Rn => "Rn"@,
            Elements::Fr => "Fr"@,
            Elements::Ra => "Ra"@,
            Elements::Ac => "Ac"@,
            Elements::Th => "Th"@,
            Elements::Pa => "Pa"@,
            Elements::U => "U"@,
            Elements::Np => "Np"@,
            Elements::Pu => "Pu"@,
            Elements::Am => "Am"@,
            Elements::Cm => "Cm"@,
            Elements::Bk => "Bk"@,
            Elements::Cf => "Cf"@,
            Elements::Es => "Es"@,
            Elements::Fm => "Fm"@,
            Elements::Md => "Md"@,
            Elements::No => "No"@,
            Elements::Lr => "Lr"@,
            Elements::Rf => "Rf"@,
            Elements::Db => "Db"@,
            Elements::Sg => "Sg"@,
            Elements::Bh => "Bh"@,
            Elements::Hs => "Hs"@,
        }
    }

    /// The number of protons of the element: 1 for hydrogen, 108 for hassium.
    pub open spec fn atomic_number_spec(self) -> int {
        match self {
            Elements::H => 1,
            Elements::He => 2,
            Elements::Li => 3,
            Elements::Be => 4,
            Elements::B => 5,
            Elements::C => 6,
            Elements::N => 7,
            Elements::O => 8,
            Elements::F => 9,
            Elements::Ne => 10,
            Elements::Na => 11,
            Elements::Mg => 12,
            Elements::Al => 13,
            Elements::Si => 14,
            Elements::P => 15,
            Elements::S => 16,
            Elements::Cl => 17,
            Elements::Ar => 18,
            Elements::K => 19,
            Elements::Ca => 20,
            Elements::Sc => 21,
            Elements::Ti => 22,
            Elements::V => 23,
            Elements::Cr => 24,
            Elements::Mn => 25,
            Elements::Fe => 26,
            Elements::Co => 27,
            Elements::Ni => 28,
            Elements::Cu => 29,
            Elements::Zn => 30,
            Elements::Ga => 31,
            Elements::Ge => 32,
            Elements::As => 33,
            Elements::Se => 34,
            Elements::Br => 35,
            Elements::Kr => 36,
            Elements::Rb => 37,
            Elements::Sr => 38,
            Elements::Y => 39,
            Elements::Zr => 40,
            Elements::Nb => 41,
            Elements::Mo => 42,
            Elements::Tc => 43,
            Elements::Ru => 44,
            Elements::Rh => 45,
            Elements::Pd => 46,
            Elements::Ag => 47,
            Elements::Cd => 48,
            Elements::In => 49,
            Elements::Sn => 50,
            Elements::Sb => 51,
            Elements::Te => 52,
            Elements::I => 53,
            Elements::Xe => 54,
            Elements::Cs => 55,
            Elements::Ba => 56,
            Elements::La => 57,
            Elements::Ce => 58,
            Elements::Pr => 59,
            Elements::Nd => 60,
            Elements::Pm => 61,
            Elements::Sm => 62,
            Elements::Eu => 63,
            Elements::Gd => 64,
            Elements::Tb => 65,
            Elements::Dy => 66,
            Elements::Ho => 67,
            Elements::Er => 68,
            Elements::Tm => 69,
            Elements::Yb => 70,
            Elements::Lu => 71,
            Elements::Hf => 72,
            Elements::Ta => 73,
            Elements::W => 74,
            Elements::Re => 75,
            Elements::Os => 76,
            Elements::Ir => 77,
            Elements::Pt => 78,
            Elements::Au => 79,
            Elements::Hg => 80,
            Elements::Tl => 81,
            Elements::Pb => 82,
            Elements::Bi => 83,
            Elements::Po => 84,
            Elements::At => 85,
            Elements::Rn => 86,
            Elements::Fr => 87,
            Elements::Ra => 88,
            Elements::Ac => 89,
            Elements::Th => 90,
            Elements::Pa => 91,
            Elements::U => 92,
            Elements::Np => 93,
            Elements::Pu => 94,
            Elements::Am => 95,
            Elements::Cm => 96,
            Elements::Bk => 97,
            Elements::Cf => 98,
            Elements::Es => 99,
            Elements::Fm => 100,
            Elements::Md => 101,
            Elements::No => 102,
            Elements::Lr => 103,
            Elements::Rf => 104,
            Elements::Db => 105,
            Elements::Sg => 106,
            Elements::Bh => 107,
            Elements::Hs => 108,
        }
    }

    /// The digits of the ionisation potential of the element in wavenumbers
    /// (1/cm), its point left out.
    pub open spec fn ip_digits_spec(self) -> nat {
        match self {
            Elements::H => 10967877174307,
            Elements::He => 19831066637,
            Elements::Li => 434871142,
            Elements::Be => 7519264,
            Elements::B => 6692804,
            Elements::C => 90820348,
            Elements::N => 1172257,
            Elements::O => 10983702,
            Elements::F => 1405245,
            Elements::Ne => 17392975,
            Elements::Na => 41449451,
            Elements::Mg => 6167105,
            Elements::Al => 4827848,
            Elements::Si => 6574776,
            Elements::P => 8458083,
            Elements::S => 835591,
            Elements::Cl => 10459101,
            Elements::Ar => 127109842,
            Elements::K => 35009814,
            Elements::Ca => 49305924,
            Elements::Sc => 529220,
            Elements::Ti => 550725,
            Elements::V => 5441167,
            Elements::Cr => 545756,
            Elements::Mn => 5995956,
            Elements::Fe => 63737704,
            Elements::Co => 635646,
            Elements::Ni => 6161977,
            Elements::Cu => 6231746,
            Elements::Zn => 7576931,
            Elements::Ga => 48387634,
            Elements::Ge => 6371324,
            Elements::As => 789500,
            Elements::Se => 7865815,
            Elements::Br => 952848,
            Elements::Kr => 112914433,
            Elements::Rb => 3369081,
            Elements::Sr => 459322036,
            Elements::Y => 501456,
            Elements::Zr => 53507832,
            Elements::Nb => 545138,
            Elements::Mo => 572043,
            Elements::Tc => 5742168,
            Elements::Ru => 593664,
            Elements::Rh => 601601,
            Elements::Pd => 6724114,
            Elements::Ag => 6110645,
            Elements::Cd => 7254005,
            Elements::In => 46670107,
            Elements::Sn => 5923269,
            Elements::Sb => 6943134,
            Elements::Te => 72669006,
            Elements::I => 842949,
            Elements::Xe => 97833787,
            Elements::Cs => 314064677325,
            Elements::Ba => 4203491,
            Elements::La => 449810,
            Elements::Ce => 446720,
            Elements::Pr => 441200,
            Elements::Nd => 445620,
            Elements::Pm => 450208,
            Elements::Sm => 4551969,
            Elements::Eu => 4573474,
            Elements::Gd => 4960145,
            Elements::Tb => 472950,
            Elements::Dy => 4790176,
            Elements::Ho => 485670,
            Elements::Er => 492620,
            Elements::Tm => 4988057,
            Elements::Yb => 504432,
            Elements::Lu => 437626,
            Elements::Hf => 550479,
            Elements::Ta => 608914,
            Elements::W => 634277,
            Elements::Re => 631816,
            Elements::Os => 680589,
            Elements::Ir => 723239,
            Elements::Pt => 722578,
            Elements::Au => 7440911,
            Elements::Hg => 8418415,
            Elements::Tl => 4926666,
            Elements::Pb => 59819558,
            Elements::Bi => 5876165,
            Elements::Po => 6789631,
            Elements::At => 751508,
            Elements::Rn => 866925,
            Elements::Fr => 32848872,
            Elements::Ra => 4257336,
            Elements::Ac => 4339452,
            Elements::Th => 508670,
            Elements::Pa => 490340,
            Elements::U => 499584,
            Elements::Np => 505350,
            Elements::Pu => 486010,
            Elements::Am => 481820,
            Elements::Cm => 4833068,
            Elements::Bk => 499890,
            Elements::Cf => 5066676,
            Elements::Es => 5136458,
            Elements::Fm => 524225,
            Elements::Md => 532300,
            Elements::No => 534440,
            Elements::Lr => 400050,
            Elements::Rf => 485800,
            Elements::Db => 550000,
            Elements::Sg => 630000,
            Elements::Bh => 620000,
            Elements::Hs => 610000,
        }
    }

    /// How many digits of the ionisation potential stand behind its point.
    pub open spec fn ip_places_spec(self) -> nat {
        match self {
            Elements::H => 8,
            Elements::He => 5,
            Elements::Li => 4,
            Elements::Be => 2,
            Elements::B => 2,
            Elements::C => 3,
            Elements::N => 1,
            Elements::O => 2,
            Elements::F => 1,
            Elements::Ne => 2,
            Elements::Na => 3,
            Elements::Mg => 2,
            Elements::Al => 2,
            Elements::Si => 2,
            Elements::P => 2,
            Elements::S => 1,
            Elements::Cl => 2,
            Elements::Ar => 3,
            Elements::K => 3,
            Elements::Ca => 3,
            Elements::Sc => 1,
            Elements::Ti => 1,
            Elements::V => 2,
            Elements::Cr => 1,
            Elements::Mn => 2,
            Elements::Fe => 3,
            Elements::Co => 1,
            Elements::Ni => 2,
            Elements::Cu => 2,
            Elements::Zn => 2,
            Elements::Ga => 3,
            Elements::Ge => 2,
            Elements::As => 1,
            Elements::Se => 2,
            Elements::Br => 1,
            Elements::Kr => 3,
            Elements::Rb => 2,
            Elements::Sr => 4,
            Elements::Y => 1,
            Elements::Zr => 3,
            Elements::Nb => 1,
            Elements::Mo => 1,
            Elements::Tc => 2,
            Elements::Ru => 1,
            Elements::Rh => 1,
            Elements::Pd => 2,
            Elements::Ag => 2,
            Elements::Cd => 2,
            Elements::In => 3,
            Elements::Sn => 2,
            Elements::Sb => 2,
            Elements::Te => 3,
            Elements::I => 1,
            Elements::Xe => 3,
            Elements::Cs => 7,
            Elements::Ba => 2,
            Elements::La => 1,
            Elements::Ce => 1,
            Elements::Pr => 1,
            Elements::Nd => 1,
            Elements::Pm => 1,
            Elements::Sm => 2,
            Elements::Eu => 2,
            Elements::Gd => 2,
            Elements::Tb => 1,
            Elements::Dy => 2,
            Elements::Ho => 1,
            Elements::Er => 1,
            Elements::Tm => 2,
            Elements::Yb => 1,
            Elements::Lu => 1,
            Elements::Hf => 1,
            Elements::Ta => 1,
            Elements::W => 1,
            Elements::Re => 1,
            Elements::Os => 1,
            Elements::Ir => 1,
            Elements::Pt => 1,
            Elements::Au => 2,
            Elements::Hg => 2,
            Elements::Tl => 2,
            Elements::Pb => 3,
            Elements::Bi => 2,
            Elements::Po => 2,
            Elements::At => 1,
            Elements::Rn => 1,
            Elements::Fr => 3,
            Elements::Ra => 2,
            Elements::Ac => 2,
            Elements::Th => 1,
            Elements::Pa => 1,
            Elements::U => 1,
            Elements::Np => 1,
            Elements::Pu => 1,
            Elements::Am => 1,
            Elements::Cm => 2,
            Elements::Bk => 1,
            Elements::Cf => 2,
            Elements::Es => 2,
            Elements::Fm => 1,
            Elements::Md => 1,
            Elements::No => 1,
            Elements::Lr => 1,
            Elements::Rf => 1,
            Elements::Db => 1,
            Elements::Sg => 1,
            Elements::Bh => 1,
            Elements::Hs => 1,
        }
    }

    /// The ionisation potential of the element in wavenumbers (1/cm), as a
    /// decimal literal: its digits with the point in its place.
    pub open spec fn ip_spec(self) -> Seq<char> {
        fixed_text(self.ip_digits_spec(), self.ip_places_spec())
    }

    /// The ionisation potential of the element in hundred-millionths of a
    /// wavenumber, which is a whole number for every element.
    pub open spec fn ip_hundred_millionths(self) -> nat {
        self.ip_digits_spec() * pow10((8 - self.ip_places_spec()) as nat)
    }

    /// The symbol of the element, which is also its name in a document.
    pub fn symbol(&self) -> (r: &'static str)
        ensures
            r@ == self.symbol_spec(),
    {
        match self {
            Elements::H => "H",
            Elements::He => "He",
            Elements::Li => "Li",
            Elements::Be => "Be",
            Elements::B => "B",
            Elements::C => "C",
            Elements::N => "N",
            Elements::O => "O",
            Elements::F => "F",
            Elements::Ne => "Ne",
            Elements::Na => "Na",
            Elements::Mg => "Mg",
            Elements::Al => "Al",
            Elements::Si => "Si",
            Elements::P => "P",
            Elements::S => "S",
            Elements::Cl => "Cl",
            Elements::Ar => "Ar",
            Elements::K => "K",
            Elements::Ca => "Ca",
            Elements::Sc => "Sc",
            Elements::Ti => "Ti",
            Elements::V => "V",
            Elements::Cr => "Cr",
            Elements::Mn => "Mn",
            Elements::Fe => "Fe",
            Elements::Co => "Co",
            Elements::Ni => "Ni",
            Elements::Cu => "Cu",
            Elements::Zn => "Zn",
            Elements::Ga => "Ga",
            Elements::Ge => "Ge",
            Elements::As => "As",
            Elements::Se => "Se",
            Elements::Br => "Br",
            Elements::Kr => "Kr",
            Elements::Rb => "Rb",
            Elements::Sr => "Sr",
            Elements::Y => "Y",
            Elements::Zr => "Zr",
            Elements::Nb => "Nb",
            Elements::Mo => "Mo",
            Elements::Tc => "Tc",
            Elements::Ru => "Ru",
            Elements::Rh => "Rh",
            Elements::Pd => "Pd",
            Elements::Ag => "Ag",
            Elements::Cd => "Cd",
            Elements::In => "In",
            Elements::Sn => "Sn",
            Elements::Sb => "Sb",
            Elements::Te => "Te",
            Elements::I => "I",
            Elements::Xe => "Xe",
            Elements::Cs => "Cs",
            Elements::Ba => "Ba",
            Elements::La => "La",
            Elements::Ce => "Ce",
            Elements::Pr => "Pr",
            Elements::Nd => "Nd",
            Elements::Pm => "Pm",
            Elements::Sm => "Sm",
            Elements::Eu => "Eu",
            Elements::Gd => "Gd",
            Elements::Tb => "Tb",
            Elements::Dy => "Dy",
            Elements::Ho => "Ho",
            Elements::Er => "Er",
            Elements::Tm => "Tm",
            Elements::Yb => "Yb",
            Elements::Lu => "Lu",
            Elements::Hf => "Hf",
            Elements::Ta => "Ta",
            Elements::W => "W",
            Elements::Re => "Re",
            Elements::Os => "Os",
            Elements::Ir => "Ir",
            Elements::Pt => "Pt",
            Elements::Au => "Au",
            Elements::Hg => "Hg",
            Elements::Tl => "Tl",
            Elements::Pb => "Pb",
            Elements::Bi => "Bi",
            Elements::Po => "Po",
            Elements::At => "At",
            Elements::Rn => "Rn",
            Elements::Fr => "Fr",
            Elements::Ra => "Ra",
            Elements::Ac => "Ac",
            Elements::Th => "Th",
            Elements::Pa => "Pa",
            Elements::U => "U",
            Elements::Np => "Np",
            Elements::Pu => "Pu",
            Elements::Am => "Am",
            Elements::Cm => "Cm",
            Elements::Bk => "Bk",
            Elements::Cf => "Cf",
            Elements::Es => "Es",
            Elements::Fm => "Fm",
            Elements::Md => "Md",
            Elements::No => "No",
            Elements::Lr => "Lr",
            Elements::Rf => "Rf",
            Elements::Db => "Db",
            Elements::Sg => "Sg",
            Elements::Bh => "Bh",
            Elements::Hs => "Hs",
        }
    }

    /// The number of protons of the element.
    pub fn atomic_number(&self) -> (r: u8)
        ensures
            r == self.atomic_number_spec(),
            1 <= r <= ELEMENT_COUNT,
    {
        match self {
            Elements::H => 1,
            Elements::He => 2,
            Elements::Li => 3,
            Elements::Be => 4,
            Elements::B => 5,
            Elements::C => 6,
            Elements::N => 7,
            Elements::O => 8,
            Elements::F => 9,
            Elements::Ne => 10,
            Elements::Na => 11,
            Elements::Mg => 12,
            Elements::Al => 13,
            Elements::Si => 14,
            Elements::P => 15,
            Elements::S => 16,
            Elements::Cl => 17,
            Elements::Ar => 18,
            Elements::K => 19,
            Elements::Ca => 20,
            Elements::Sc => 21,
            Elements::Ti => 22,
            Elements::V => 23,
            Elements::Cr => 24,
            Elements::Mn => 25,
            Elements::Fe => 26,
            Elements::Co => 27,
            Elements::Ni => 28,
            Elements::Cu => 29,
            Elements::Zn => 30,
            Elements::Ga => 31,
            Elements::Ge => 32,
            Elements::As => 33,
            Elements::Se => 34,
            Elements::Br => 35,
            Elements::Kr => 36,
            Elements::Rb => 37,
            Elements::Sr => 38,
            Elements::Y => 39,
            Elements::Zr => 40,
            Elements::Nb => 41,
            Elements::Mo => 42,
            Elements::Tc => 43,
            Elements::Ru => 44,
            Elements::Rh => 45,
            Elements::Pd => 46,
            Elements::Ag => 47,
            Elements::Cd => 48,
            Elements::In => 49,
            Elements::Sn => 50,
            Elements::Sb => 51,
            Elements::Te => 52,
            Elements::I => 53,
            Elements::Xe => 54,
            Elements::Cs => 55,
            Elements::Ba => 56,
            Elements::La => 57,
            Elements::Ce => 58,
            Elements::Pr => 59,
            Elements::Nd => 60,
            Elements::Pm => 61,
            Elements::Sm => 62,
            Elements::Eu => 63,
            Elements::Gd => 64,
            Elements::Tb => 65,
            Elements::Dy => 66,
            Elements::Ho => 67,
            Elements::Er => 68,
            Elements::Tm => 69,
            Elements::Yb => 70,
            Elements::Lu => 71,
            Elements::Hf => 72,
            Elements::Ta => 73,
            Elements::W => 74,
            Elements::Re => 75,
            Elements::Os => 76,
            Elements::Ir => 77,
            Elements::Pt => 78,
            Elements::Au => 79,
            Elements::Hg => 80,
            Elements::Tl => 81,
            Elements::Pb => 82,
            Elements::Bi => 83,
            Elements::Po => 84,
            Elements::At => 85,
            Elements::Rn => 86,
            Elements::Fr => 87,
            Elements::Ra => 88,
            Elements::Ac => 89,
            Elements::Th => 90,
            Elements::Pa => 91,
            Elements::U => 92,
            Elements::Np => 93,
            Elements::Pu => 94,
            Elements::Am => 95,
            Elements::Cm => 96,
            Elements::Bk => 97,
            Elements::Cf => 98,
            Elements::Es => 99,
            Elements::Fm => 100,
            Elements::Md => 101,
            Elements::No => 102,
            Elements::Lr => 103,
            Elements::Rf => 104,
            Elements::Db => 105,
            Elements::Sg => 106,
            Elements::Bh => 107,
            Elements::Hs => 108,
        }
    }

    /// The element with `z` protons, if `z` is between 1 and 108.
    pub fn from_atomic_number(z: u8) -> (r: Option<Elements>)
        ensures
            match r {
                Some(e) => e.atomic_number_spec() == z,
                None => z < 1 || z > ELEMENT_COUNT,
            },
    {
        match z {
            1 => Some(Elements::H),
            2 => Some(Elements::He),
            3 => Some(Elements::Li),
            4 => Some(Elements::Be),
            5 => Some(Elements::B),
            6 => Some(Elements::C),
            7 => Some(Elements::N),
            8 => Some(Elements::O),
            9 => Some(Elements::F),
            10 => Some(Elements::Ne),
            11 => Some(Elements::Na),
            12 => Some(Elements::Mg),
            13 => Some(Elements::Al),
            14 => Some(Elements::Si),
            15 => Some(Elements::P),
            16 => Some(Elements::S),
            17 => Some(Elements::Cl),
            18 => Some(Elements::Ar),
            19 => Some(Elements::K),
            20 => Some(Elements::Ca),
            21 => Some(Elements::Sc),
            22 => Some(Elements::Ti),
            23 => Some(Elements::V),
            24 => Some(Elements::Cr),
            25 => Some(Elements::Mn),
            26 => Some(Elements::Fe),
            27 => Some(Elements::Co),
            28 => Some(Elements::Ni),
            29 => Some(Elements::Cu),
            30 => Some(Elements::Zn),
            31 => Some(Elements::Ga),
            32 => Some(Elements::Ge),
            33 => Some(Elements::As),
            34 => Some(Elements::Se),
            35 => Some(Elements::Br),
            36 => Some(Elements::Kr),
            37 => Some(Elements::Rb),
            38 => Some(Elements::Sr),
            39 => Some(Elements::Y),
            40 => Some(Elements::Zr),
            41 => Some(Elements::Nb),
            42 => Some(Elements::Mo),
            43 => Some(Elements::Tc),
            44 => Some(Elements::Ru),
            45 => Some(Elements::Rh),
            46 => Some(Elements::Pd),
            47 => Some(Elements::Ag),
            48 => Some(Elements::Cd),
            49 => Some(Elements::In),
            50 => Some(Elements::Sn),
            51 => Some(Elements::Sb),
            52 => Some(Elements::Te),
            53 => Some(Elements::I),
            54 => Some(Elements::Xe),
            55 => Some(Elements::Cs),
            56 => Some(Elements::Ba),
            57 => Some(Elements::La),
            58 => Some(Elements::Ce),
            59 => Some(Elements::Pr),
            60 => Some(Elements::Nd),
            61 => Some(Elements::Pm),
            62 => Some(Elements::Sm),
            63 => Some(Elements::Eu),
            64 => Some(Elements::Gd),
            65 => Some(Elements::Tb),
            66 => Some(Elements::Dy),
            67 => Some(Elements::Ho),
            68 => Some(Elements::Er),
            69 => Some(Elements::Tm),
            70 => Some(Elements::Yb),
            71 => Some(Elements::Lu),
            72 => Some(Elements::Hf),
            73 => Some(Elements::Ta),
            74 => Some(Elements::W),
            75 => Some(Elements::Re),
            76 => Some(Elements::Os),
            77 => Some(Elements::Ir),
            78 => Some(Elements::Pt),
            79 => Some(Elements::Au),
            80 => Some(Elements::Hg),
            81 => Some(Elements::Tl),
            82 => Some(Elements::Pb),
            83 => Some(Elements::Bi),
            84 => Some(Elements::Po),
            85 => Some(Elements::At),
            86 => Some(Elements::Rn),
            87 => Some(Elements::Fr),
            88 => Some(Elements::Ra),
            89 => Some(Elements::Ac),
            90 => Some(Elements::Th),
            91 => Some(Elements::Pa),
            92 => Some(Elements::U),
            93 => Some(Elements::Np),
            94 => Some(Elements::Pu),
            95 => Some(Elements::Am),
            96 => Some(Elements::Cm),
            97 => Some(Elements::Bk),
            98 => Some(Elements::Cf),
            99 => Some(Elements::Es),
            100 => Some(Elements::Fm),
            101 => Some(Elements::Md),
            102 => Some(Elements::No),
            103 => Some(Elements::Lr),
            104 => Some(Elements::Rf),
            105 => Some(Elements::Db),
            106 => Some(Elements::Sg),
            107 => Some(Elements::Bh),
            108 => Some(Elements::Hs),
            _ => None,
        }
    }

    fn ip_digits(&self) -> (r: u64)
        ensures
            r == self.ip_digits_spec(),
    {
        match self {
            Elements::H => 10967877174307,
            Elements::He => 19831066637,
            Elements::Li => 434871142,
            Elements::Be => 7519264,
            Elements::B => 6692804,
            Elements::C => 90820348,
            Elements::N => 1172257,
            Elements::O => 10983702,
            Elements::F => 1405245,
            Elements::Ne => 17392975,
            Elements::Na => 41449451,
            Elements::Mg => 6167105,
            Elements::Al => 4827848,
            Elements::Si => 6574776,
            Elements::P => 8458083,
            Elements::S => 835591,
            Elements::Cl => 10459101,
            Elements::Ar => 127109842,
            Elements::K => 35009814,
            Elements::Ca => 49305924,
            Elements::Sc => 529220,
            Elements::Ti => 550725,
            Elements::V => 5441167,
            Elements::Cr => 545756,
            Elements::Mn => 5995956,
            Elements::Fe => 63737704,
            Elements::Co => 635646,
            Elements::Ni => 6161977,
            Elements::Cu => 6231746,
            Elements::Zn => 7576931,
            Elements::Ga => 48387634,
            Elements::Ge => 6371324,
            Elements::As => 789500,
            Elements::Se => 7865815,
            Elements::Br => 952848,
            Elements::Kr => 112914433,
            Elements::Rb => 3369081,
            Elements::Sr => 459322036,
            Elements::Y => 501456,
            Elements::Zr => 53507832,
            Elements::Nb => 545138,
            Elements::Mo => 572043,
            Elements::Tc => 5742168,
            Elements::Ru => 593664,
            Elements::Rh => 601601,
            Elements::Pd => 6724114,
            Elements::Ag => 6110645,
            Elements::Cd => 7254005,
            Elements::In => 46670107,
            Elements::Sn => 5923269,
            Elements::Sb => 6943134,
            Elements::Te => 72669006,
            Elements::I => 842949,
            Elements::Xe => 97833787,
            Elements::Cs => 314064677325,
            Elements::Ba => 4203491,
            Elements::La => 449810,
            Elements::Ce => 446720,
            Elements::Pr => 441200,
            Elements::Nd => 445620,
            Elements::Pm => 450208,
            Elements::Sm => 4551969,
            Elements::Eu => 4573474,
            Elements::Gd => 4960145,
            Elements::Tb => 472950,
            Elements::Dy => 4790176,
            Elements::Ho => 485670,
            Elements::Er => 492620,
            Elements::Tm => 4988057,
            Elements::Yb => 504432,
            Elements::Lu => 437626,
            Elements::Hf => 550479,
            Elements::Ta => 608914,
            Elements::W => 634277,
            Elements::Re => 631816,
            Elements::Os => 680589,
            Elements::Ir => 723239,
            Elements::Pt => 722578,
            Elements::Au => 7440911,
            Elements::Hg => 8418415,
            Elements::Tl => 4926666,
            Elements::Pb => 59819558,
            Elements::Bi => 5876165,
            Elements::Po => 6789631,
            Elements::At => 751508,
            Elements::Rn => 866925,
            Elements::Fr => 32848872,
            Elements::Ra => 4257336,
            Elements::Ac => 4339452,
            Elements::Th => 508670,
            Elements::Pa => 490340,
            Elements::U => 499584,
            Elements::Np => 505350,
            Elements::Pu => 486010,
            Elements::Am => 481820,
            Elements::Cm => 4833068,
            Elements::Bk => 499890,
            Elements::Cf => 5066676,
            Elements::Es => 5136458,
            Elements::Fm => 524225,
            Elements::Md => 532300,
            Elements::No => 534440,
            Elements::Lr => 400050,
            Elements::Rf => 485800,
            Elements::Db => 550000,
            Elements::Sg => 630000,
            Elements::Bh => 620000,
            Elements::Hs => 610000,
        }
    }

    fn ip_places(&self) -> (r: usize)
        ensures
            r == self.ip_places_spec(),
    {
        match self {
            Elements::H => 8,
            Elements::He => 5,
            Elements::Li => 4,
            Elements::Be => 2,
            Elements::B => 2,
            Elements::C => 3,
            Elements::N => 1,
            Elements::O => 2,
            Elements::F => 1,
            Elements::Ne => 2,
            Elements::Na => 3,
            Elements::Mg => 2,
            Elements::Al => 2,
            Elements::Si => 2,
            Elements::P => 2,
            Elements::S => 1,
            Elements::Cl => 2,
            Elements::Ar => 3,
            Elements::K => 3,
            Elements::Ca => 3,
            Elements::Sc => 1,
            Elements::Ti => 1,
            Elements::V => 2,
            Elements::Cr => 1,
            Elements::Mn => 2,
            Elements::Fe => 3,
            Elements::Co => 1,
            Elements::Ni => 2,
            Elements::Cu => 2,
            Elements::Zn => 2,
            Elements::Ga => 3,
            Elements::Ge => 2,
            Elements::As => 1,
            Elements::Se => 2,
            Elements::Br => 1,
            Elements::Kr => 3,
            Elements::Rb => 2,
            Elements::Sr => 4,
            Elements::Y => 1,
            Elements::Zr => 3,
            Elements::Nb => 1,
            Elements::Mo => 1,
            Elements::Tc => 2,
            Elements::Ru => 1,
            Elements::Rh => 1,
            Elements::Pd => 2,
            Elements::Ag => 2,
            Elements::Cd => 2,
            Elements::In => 3,
            Elements::Sn => 2,
            Elements::Sb => 2,
            Elements::Te => 3,
            Elements::I => 1,
            Elements::Xe => 3,
            Elements::Cs => 7,
            Elements::Ba => 2,
            Elements::La => 1,
            Elements::Ce => 1,
            Elements::Pr => 1,
            Elements::Nd => 1,
            Elements::Pm => 1,
            Elements::Sm => 2,
            Elements::Eu => 2,
            Elements::Gd => 2,
            Elements::Tb => 1,
            Elements::Dy => 2,
            Elements::Ho => 1,
            Elements::Er => 1,
            Elements::Tm => 2,
            Elements::Yb => 1,
            Elements::Lu => 1,
            Elements::Hf => 1,
            Elements::Ta => 1,
            Elements::W => 1,
            Elements::Re => 1,
            Elements::Os => 1,
            Elements::Ir => 1,
            Elements::Pt => 1,
            Elements::Au => 2,
            Elements::Hg => 2,
            Elements::Tl => 2,
            Elements::Pb => 3,
            Elements::Bi => 2,
            Elements::Po => 2,
            Elements::At => 1,
            Elements::Rn => 1,
            Elements::Fr => 3,
            Elements::Ra => 2,
            Elements::Ac => 2,
            Elements::Th => 1,
            Elements::Pa => 1,
            Elements::U => 1,
            Elements::Np => 1,
            Elements::Pu => 1,
            Elements::Am => 1,
            Elements::Cm => 2,
            Elements::Bk => 1,
            Elements::Cf => 2,
            Elements::Es => 2,
            Elements::Fm => 1,
            Elements::Md => 1,
            Elements::No => 1,
            Elements::Lr => 1,
            Elements::Rf => 1,
            Elements::Db => 1,
            Elements::Sg => 1,
            Elements::Bh => 1,
            Elements::Hs => 1,
        }
    }

    /// The ionisation potential of the element in wavenumbers (1/cm), as a
    /// decimal literal with the digits of the published value.
    pub fn ip(&self) -> (r: String)
        ensures
            r@ == self.ip_spec(),
            is_float_text(r@),
    {
        proof {
            lemma_ip_is_number(*self);
        }
        fixed_point_text(self.ip_digits(), self.ip_places())
    }

    /// Finds the element with symbol `s`.  The symbol has to match exactly,
    /// capitals included.
    pub fn from_str(s: &str) -> (r: Result<Elements, String>)
        ensures
            match r {
                Ok(e) => element_of_symbol(s@) == Some(e),
                Err(msg) => element_of_symbol(s@).is_none() && msg@ == "Element "@ + s@
                    + " not found."@,
            },
    {
        let mut z: u8 = 1;
        while z <= ELEMENT_COUNT
            invariant
                1 <= z <= ELEMENT_COUNT + 1,
                forall|e: Elements| e.atomic_number_spec() < z ==> e.symbol_spec() != s@,
            decreases ELEMENT_COUNT + 1 - z,
        {
            match Elements::from_atomic_number(z) {
                Some(e) => {
                    if same_text(e.symbol(), s) {
                        proof {
                            lemma_symbol_found(e);
                        }
                        return Ok(e);
                    }
                    assert forall|f: Elements| f.atomic_number_spec() < z + 1 implies f.symbol_spec()
                        != s@ by {
                        if f.atomic_number_spec() == z {
                            lemma_atomic_number_injective(e, f);
                        }
                    }
                },
                None => {},
            }
            z += 1;
        }
        assert forall|e: Elements| e.symbol_spec() != s@ by {
            lemma_atomic_number_range(e);
        }
        Err(join3("Element ", s, " not found."))
    }

    /// Every element, in the order of the periodic table.
    pub fn all() -> (r: Vec<Elements>)
        ensures
            r@.len() == ELEMENT_COUNT,
            forall|i: int| 0 <= i < r@.len() ==> (#[trigger] r@[i]).atomic_number_spec() == i + 1,
    {
        let mut v: Vec<Elements> = Vec::new();
        let mut z: u8 = 1;
        while z <= ELEMENT_COUNT
            invariant
                1 <= z <= ELEMENT_COUNT + 1,
                v@.len() == z - 1,
                forall|i: int| 0 <= i < v@.len() ==> (#[trigger] v@[i]).atomic_number_spec() == i + 1,
            decreases ELEMENT_COUNT + 1 - z,
        {
            match Elements::from_atomic_number(z) {
                Some(e) => {
                    v.push(e);
                },
                None => {},
            }
            z += 1;
        }
        v
    }
}

impl std::str::FromStr for Elements {
    type Err = String;

    /// The element with symbol `s`, as [`Elements::from_str`] gives it, for `str::parse`.
    fn from_str(s: &str) -> (r: Result<Elements, String>)
        ensures
            match r {
                Ok(e) => element_of_symbol(s@) == Some(e),
                Err(msg) => element_of_symbol(s@).is_none() && msg@ == "Element "@ + s@
                    + " not found."@,
            },
    {
        Elements::from_str(s)
    }
}

/// The element that has symbol `s`, if one has.
pub open spec fn element_of_symbol(s: Seq<char>) -> Option<Elements> {
    if exists|e: Elements| e.symbol_spec() == s {
        Some(choose|e: Elements| e.symbol_spec() == s)
    } else {
        None
    }
}

/// A symbol as three numbers: its length and its first two characters.
spec fn symbol_key(s: Seq<char>) -> (int, int, int) {
    (s.len() as int, s[0] as int, if s.len() > 1 { s[1] as int } else { 0 })
}

spec fn symbol_key_of(e: Elements) -> (int, int, int) {
    match e {
        Elements::H => (1, 72, 0),
        Elements::He => (2, 72, 101),
        Elements::Li => (2, 76, 105),
        Elements::Be => (2, 66, 101),
        Elements::B => (1, 66, 0),
        Elements::C => (1, 67, 0),
        Elements::N => (1, 78, 0),
        Elements::O => (1, 79, 0),
        Elements::F => (1, 70, 0),
        Elements::Ne => (2, 78, 101),
        Elements::Na => (2, 78, 97),
        Elements::Mg => (2, 77, 103),
        Elements::Al => (2, 65, 108),
        Elements::Si => (2, 83, 105),
        Elements::P => (1, 80, 0),
        Elements::S => (1, 83, 0),
        Elements::Cl => (2, 67, 108),
        Elements::Ar => (2, 65, 114),
        Elements::K => (1, 75, 0),
        Elements::Ca => (2, 67, 97),
        Elements::Sc => (2, 83, 99),
        Elements::Ti => (2, 84, 105),
        Elements::V => (1, 86, 0),
        Elements::Cr => (2, 67, 114),
        Elements::Mn => (2, 77, 110),
        Elements::Fe => (2, 70, 101),
        Elements::Co => (2, 67, 111),
        Elements::Ni => (2, 78, 105),
        Elements::Cu => (2, 67, 117),
        Elements::Zn => (2, 90, 110),
        Elements::Ga => (2, 71, 97),
        Elements::Ge => (2, 71, 101),
        Elements::As => (2, 65, 115),
        Elements::Se => (2, 83, 101),
        Elements::Br => (2, 66, 114),
        Elements::Kr => (2, 75, 114),
        Elements::Rb => (2, 82, 98),
        Elements::Sr => (2, 83, 114),
        Elements::Y => (1, 89, 0),
        Elements::Zr => (2, 90, 114),
        Elements::Nb => (2, 78, 98),
        Elements::Mo => (2, 77, 111),
        Elements::Tc => (2, 84, 99),
        Elements::Ru => (2, 82, 117),
        Elements::Rh => (2, 82, 104),
        Elements::Pd => (2, 80, 100),
        Elements::Ag => (2, 65, 103),
        Elements::Cd => (2, 67, 100),
        Elements::In => (2, 73, 110),
        Elements::Sn => (2, 83, 110),
        Elements::Sb => (2, 83, 98),
        Elements::Te => (2, 84, 101),
        Elements::I => (1, 73, 0),
        Elements::Xe => (2, 88, 101),
        Elements::Cs => (2, 67, 115),
        Elements::Ba => (2, 66, 97),
        Elements::La => (2, 76, 97),
        Elements::Ce => (2, 67, 101),
        Elements::Pr => (2, 80, 114),
        Elements::Nd => (2, 78, 100),
        Elements::Pm => (2, 80, 109),
        Elements::Sm => (2, 83, 109),
        Elements::Eu => (2, 69, 117),
        Elements::Gd => (2, 71, 100),
        Elements::Tb => (2, 84, 98),
        Elements::Dy => (2, 68, 121),
        Elements::Ho => (2, 72, 111),
        Elements::Er => (2, 69, 114),
        Elements::Tm => (2, 84, 109),
        Elements::Yb => (2, 89, 98),
        Elements::Lu => (2, 76, 117),
        Elements::Hf => (2, 72, 102),
        Elements::Ta => (2, 84, 97),
        Elements::W => (1, 87, 0),
        Elements::Re => (2, 82, 101),
        Elements::Os => (2, 79, 115),
        Elements::Ir => (2, 73, 114),
        Elements::Pt => (2, 80, 116),
        Elements::Au => (2, 65, 117),
        Elements::Hg => (2, 72, 103),
        Elements::Tl => (2, 84, 108),
        Elements::Pb => (2, 80, 98),
        Elements::Bi => (2, 66, 105),
        Elements::Po => (2, 80, 111),
        Elements::At => (2, 65, 116),
        Elements::Rn => (2, 82, 110),
        Elements::Fr => (2, 70, 114),
        Elements::Ra => (2, 82, 97),
        Elements::Ac => (2, 65, 99),
        Elements::Th => (2, 84, 104),
        Elements::Pa => (2, 80, 97),
        Elements::U => (1, 85, 0),
        Elements::Np => (2, 78, 112),
        Elements::Pu => (2, 80, 117),
        Elements::Am => (2, 65, 109),
        Elements::Cm => (2, 67, 109),
        Elements::Bk => (2, 66, 107),
        Elements::Cf => (2, 67, 102),
        Elements::Es => (2, 69, 115),
        Elements::Fm => (2, 70, 109),
        Elements::Md => (2, 77, 100),
        Elements::No => (2, 78, 111),
        Elements::Lr => (2, 76, 114),
        Elements::Rf => (2, 82, 102),
        Elements::Db => (2, 68, 98),
        Elements::Sg => (2, 83, 103),
        Elements::Bh => (2, 66, 104),
        Elements::Hs => (2, 72, 115),
    }
}

proof fn lemma_symbol_key(e: Elements)
    ensures
        symbol_key(e.symbol_spec()) == symbol_key_of(e),
{
    match e {
        Elements::H => { reveal_strlit("H"); },
        Elements::He => { reveal_strlit("He"); },
        Elements::Li => { reveal_strlit("Li"); },
        Elements::Be => { reveal_strlit("Be"); },
        Elements::B => { reveal_strlit("B"); },
        Elements::C => { reveal_strlit("C"); },
        Elements::N => { reveal_strlit("N"); },
        Elements::O => { reveal_strlit("O"); },
        Elements::F => { reveal_strlit("F"); },
        Elements::Ne => { reveal_strlit("Ne"); },
        Elements::Na => { reveal_strlit("Na"); },
        Elements::Mg => { reveal_strlit("Mg"); },
        Elements::Al => { reveal_strlit("Al"); },
        Elements::Si => { reveal_strlit("Si"); },
        Elements::P => { reveal_strlit("P"); },
        Elements::S => { reveal_strlit("S"); },
        Elements::Cl => { reveal_strlit("Cl"); },
        Elements::Ar => { reveal_strlit("Ar"); },
        Elements::K => { reveal_strlit("K"); },
        Elements::Ca => { reveal_strlit("Ca"); },
        Elements::Sc => { reveal_strlit("Sc"); },
        Elements::Ti => { reveal_strlit("Ti"); },
        Elements::V => { reveal_strlit("V"); },
        Elements::Cr => { reveal_strlit("Cr"); },
        Elements::Mn => { reveal_strlit("Mn"); },
        Elements::Fe => { reveal_strlit("Fe"); },
        Elements::Co => { reveal_strlit("Co"); },
        Elements::Ni => { reveal_strlit("Ni"); },
        Elements::Cu => { reveal_strlit("Cu"); },
        Elements::Zn => { reveal_strlit("Zn"); },
        Elements::Ga => { reveal_strlit("Ga"); },
        Elements::Ge => { reveal_strlit("Ge"); },
        Elements::As => { reveal_strlit("As"); },
        Elements::Se => { reveal_strlit("Se"); },
        Elements::Br => { reveal_strlit("Br"); },
        Elements::Kr => { reveal_strlit("Kr"); },
        Elements::Rb => { reveal_strlit("Rb"); },
        Elements::Sr => { reveal_strlit("Sr"); },
        Elements::Y => { reveal_strlit("Y"); },
        Elements::Zr => { reveal_strlit("Zr"); },
        Elements::Nb => { reveal_strlit("Nb"); },
        Elements::Mo => { reveal_strlit("Mo"); },
        Elements::Tc => { reveal_strlit("Tc"); },
        Elements::Ru => { reveal_strlit("Ru"); },
        Elements::Rh => { reveal_strlit("Rh"); },
        Elements::Pd => { reveal_strlit("Pd"); },
        Elements::Ag => { reveal_strlit("Ag"); },
        Elements::Cd => { reveal_strlit("Cd"); },
        Elements::In => { reveal_strlit("In"); },
        Elements::Sn => { reveal_strlit("Sn"); },
        Elements::Sb => { reveal_strlit("Sb"); },
        Elements::Te => { reveal_strlit("Te"); },
        Elements::I => { reveal_strlit("I"); },
        Elements::Xe => { reveal_strlit("Xe"); },
        Elements::Cs => { reveal_strlit("Cs"); },
        Elements::Ba => { reveal_strlit("Ba"); },
        Elements::La => { reveal_strlit("La"); },
        Elements::Ce => { reveal_strlit("Ce"); },
        Elements::Pr => { reveal_strlit("Pr"); },
        Elements::Nd => { reveal_strlit("Nd"); },
        Elements::Pm => { reveal_strlit("Pm"); },
        Elements::Sm => { reveal_strlit("Sm"); },
        Elements::Eu => { reveal_strlit("Eu"); },
        Elements::Gd => { reveal_strlit("Gd"); },
        Elements::Tb => { reveal_strlit("Tb"); },
        Elements::Dy => { reveal_strlit("Dy"); },
        Elements::Ho => { reveal_strlit("Ho"); },
        Elements::Er => { reveal_strlit("Er"); },
        Elements::Tm => { reveal_strlit("Tm"); },
        Elements::Yb => { reveal_strlit("Yb"); },
        Elements::Lu => { reveal_strlit("Lu"); },
        Elements::Hf => { reveal_strlit("Hf"); },
        Elements::Ta => { reveal_strlit("Ta"); },
        Elements::W => { reveal_strlit("W"); },
        Elements::Re => { reveal_strlit("Re"); },
        Elements::Os => { reveal_strlit("Os"); },
        Elements::Ir => { reveal_strlit("Ir"); },
        Elements::Pt => { reveal_strlit("Pt"); },
        Elements::Au => { reveal_strlit("Au"); },
        Elements::Hg => { reveal_strlit("Hg"); },
        Elements::Tl => { reveal_strlit("Tl"); },
        Elements::Pb => { reveal_strlit("Pb"); },
        Elements::Bi => { reveal_strlit("Bi"); },
        Elements::Po => { reveal_strlit("Po"); },
        Elements::At => { reveal_strlit("At"); },
        Elements::Rn => { reveal_strlit("Rn"); },
        Elements::Fr => { reveal_strlit("Fr"); },
        Elements::Ra => { reveal_strlit("Ra"); },
        Elements::Ac => { reveal_strlit("Ac"); },
        Elements::Th => { reveal_strlit("Th"); },
        Elements::Pa => { reveal_strlit("Pa"); },
        Elements::U => { reveal_strlit("U"); },
        Elements::Np => { reveal_strlit("Np"); },
        Elements::Pu => { reveal_strlit("Pu"); },
        Elements::Am => { reveal_strlit("Am"); },
        Elements::Cm => { reveal_strlit("Cm"); },
        Elements::Bk => { reveal_strlit("Bk"); },
        Elements::Cf => { reveal_strlit("Cf"); },
        Elements::Es => { reveal_strlit("Es"); },
        Elements::Fm => { reveal_strlit("Fm"); },
        Elements::Md => { reveal_strlit("Md"); },
        Elements::No => { reveal_strlit("No"); },
        Elements::Lr => { reveal_strlit("Lr"); },
        Elements::Rf => { reveal_strlit("Rf"); },
        Elements::Db => { reveal_strlit("Db"); },
        Elements::Sg => { reveal_strlit("Sg"); },
        Elements::Bh => { reveal_strlit("Bh"); },
        Elements::Hs => { reveal_strlit("Hs"); },
    }
}

/// The digits of every ionisation potential are more than stand behind its
/// point, and no more than eight stand there.
proof fn lemma_ip_table(e: Elements)
    ensures
        e.ip_places_spec() <= 8,
        e.ip_digits_spec() >= pow10(e.ip_places_spec()),
        decimal_text(e.ip_digits_spec()).len() > e.ip_places_spec(),
{
    reveal_with_fuel(pow10, 9);
    lemma_decimal_text_length(e.ip_digits_spec(), e.ip_places_spec());
}

/// Every ionisation potential of the table is a number, without sign or
/// exponent, that writes its digits with the point in its place.
pub proof fn lemma_ip_is_number(e: Elements)
    ensures
        is_float_text(e.ip_spec()),
        !is_negative(e.ip_spec()),
        exponent_part(e.ip_spec()).len() == 0,
        mantissa_value(e.ip_spec()) == e.ip_digits_spec(),
        frac_digits(e.ip_spec()).len() == e.ip_places_spec(),
{
    lemma_ip_table(e);
    lemma_fixed_text(e.ip_digits_spec(), e.ip_places_spec());
}

/// What a decimal number without exponent and with at most eight fraction
/// digits comes to in hundred-millionths.
pub open spec fn hundred_millionths(s: Seq<char>) -> nat {
    mantissa_value(s) * pow10((8 - frac_digits(s).len()) as nat)
}

/// The ionisation potentials lie between that of caesium, 31406.4677325, and
/// that of helium, 198310.66637: every element has one potential, which is
/// not below the first and not above the second, and only caesium and helium
/// have these two.
pub proof fn law_ip_range(e: Elements)
    ensures
        hundred_millionths(e.ip_spec()) == e.ip_hundred_millionths(),
        Elements::Cs.ip_hundred_millionths() == 3140646773250,
        Elements::He.ip_hundred_millionths() == 19831066637000,
        Elements::Cs.ip_hundred_millionths() <= e.ip_hundred_millionths()
            <= Elements::He.ip_hundred_millionths(),
        e.ip_hundred_millionths() == Elements::Cs.ip_hundred_millionths() <==> e == Elements::Cs,
        e.ip_hundred_millionths() == Elements::He.ip_hundred_millionths() <==> e == Elements::He,
{
    lemma_ip_is_number(e);
    reveal_with_fuel(pow10, 9);
}

pub proof fn lemma_atomic_number_range(e: Elements)
    ensures
        1 <= e.atomic_number_spec() <= ELEMENT_COUNT,
{
}

pub proof fn lemma_atomic_number_injective(a: Elements, b: Elements)
    requires
        a.atomic_number_spec() == b.atomic_number_spec(),
    ensures
        a == b,
{
}

/// No two elements share a symbol.
pub proof fn lemma_symbol_injective(a: Elements, b: Elements)
    requires
        a.symbol_spec() == b.symbol_spec(),
    ensures
        a == b,
{
    lemma_symbol_key(a);
    lemma_symbol_key(b);
}

proof fn lemma_symbol_found(e: Elements)
    ensures
        element_of_symbol(e.symbol_spec()) == Some(e),
{
    let f = choose|f: Elements| f.symbol_spec() == e.symbol_spec();
    lemma_symbol_injective(e, f);
}

/// Reading the symbol of an element gives that element back: for every
/// element `e`, the element with the symbol of `e` is `e`.
pub proof fn law_symbol_round_trip(e: Elements)
    ensures
        element_of_symbol(e.symbol_spec()) == Some(e),
{
    lemma_symbol_found(e);
}

} // verus!
