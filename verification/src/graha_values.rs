//! The celestial bodies the engine serves, their key strings, and the
//! descriptive record attached to each in reports.
use vstd::prelude::*;

use crate::converters::bytes_eq_str;
use crate::converters::normalize_key;
use crate::converters::spec_normalize_key;
use crate::traits::FromKey;
use crate::traits::ToKey;
use vstd::string::StringSliceAdditionalSpecFns;

verus! {

/// A celestial body the engine computes transits for.
#[derive(Debug, Copy, Clone, PartialEq, Eq, Structural)]
pub enum Bodies {
    Sun,
    Moon,
    Mercury,
    Venus,
    Earth,
    Mars,
    Jupiter,
    Saturn,
    Neptune,
    Uranus,
    Pluto,
    TrueNode,
    MeanNode,
    Kronos,
    Isis,
    Juno,
    Ceres,
    Chiron,
    SouthNode,
}

impl Bodies {
    /// Rise and set of this body mean limb contact rather than the
    /// disc centre, so the scanner applies a disc-radius correction.
    pub fn has_disc_correction(self) -> (r: bool)
        ensures
            r == (self is Sun || self is Moon),
    {
        matches!(self, Bodies::Sun | Bodies::Moon)
    }

    /// A day of linear extrapolation from one angular speed is too
    /// coarse for this body, so the scanner re-samples its speed at
    /// every step. Only the fastest body needs it.
    pub fn resamples_speed(self) -> (r: bool)
        ensures
            r == (self is Moon),
    {
        matches!(self, Bodies::Moon)
    }
}

/// The body a normalised key selects; an unrecognised key selects the
/// Earth, which no transit caller asks for.
pub open spec fn spec_body_from_key(n: Seq<u8>) -> Bodies {
    if n == "su".spec_bytes() {
        Bodies::Sun
    } else if n == "mo".spec_bytes() {
        Bodies::Moon
    } else if n == "me".spec_bytes() {
        Bodies::Mercury
    } else if n == "ve".spec_bytes() {
        Bodies::Venus
    } else if n == "ea".spec_bytes() {
        Bodies::Earth
    } else if n == "ma".spec_bytes() {
        Bodies::Mars
    } else if n == "ju".spec_bytes() {
        Bodies::Jupiter
    } else if n == "sa".spec_bytes() {
        Bodies::Saturn
    } else if n == "ne".spec_bytes() {
        Bodies::Neptune
    } else if n == "ur".spec_bytes() {
        Bodies::Uranus
    } else if n == "pl".spec_bytes() {
        Bodies::Pluto
    } else if n == "ke".spec_bytes() || n == "ra".spec_bytes() {
        Bodies::TrueNode
    } else if n == "mn".spec_bytes() {
        Bodies::MeanNode
    } else if n == "kr".spec_bytes() {
        Bodies::Kronos
    } else if n == "is".spec_bytes() {
        Bodies::Isis
    } else if n == "jn".spec_bytes() {
        Bodies::Juno
    } else if n == "ce".spec_bytes() {
        Bodies::Ceres
    } else if n == "ch".spec_bytes() {
        Bodies::Chiron
    } else if n == "sn".spec_bytes() {
        Bodies::SouthNode
    } else {
        Bodies::Earth
    }
}

impl FromKey<Bodies> for Bodies {
    /// Match a two-letter body key, case-insensitively.
    fn from_key(key: &str) -> (r: Bodies)
        ensures
            r == spec_body_from_key(spec_normalize_key(key.spec_bytes())),
    {
        let n = normalize_key(key);
        if bytes_eq_str(&n, "su") {
            Bodies::Sun
        } else if bytes_eq_str(&n, "mo") {
            Bodies::Moon
        } else if bytes_eq_str(&n, "me") {
            Bodies::Mercury
        } else if bytes_eq_str(&n, "ve") {
            Bodies::Venus
        } else if bytes_eq_str(&n, "ea") {
            Bodies::Earth
        } else if bytes_eq_str(&n, "ma") {
            Bodies::Mars
        } else if bytes_eq_str(&n, "ju") {
            Bodies::Jupiter
        } else if bytes_eq_str(&n, "sa") {
            Bodies::Saturn
        } else if bytes_eq_str(&n, "ne") {
            Bodies::Neptune
        } else if bytes_eq_str(&n, "ur") {
            Bodies::Uranus
        } else if bytes_eq_str(&n, "pl") {
            Bodies::Pluto
        } else if bytes_eq_str(&n, "ke") || bytes_eq_str(&n, "ra") {
            Bodies::TrueNode
        } else if bytes_eq_str(&n, "mn") {
            Bodies::MeanNode
        } else if bytes_eq_str(&n, "kr") {
            Bodies::Kronos
        } else if bytes_eq_str(&n, "is") {
            Bodies::Isis
        } else if bytes_eq_str(&n, "jn") {
            Bodies::Juno
        } else if bytes_eq_str(&n, "ce") {
            Bodies::Ceres
        } else if bytes_eq_str(&n, "ch") {
            Bodies::Chiron
        } else if bytes_eq_str(&n, "sn") {
            Bodies::SouthNode
        } else {
            Bodies::Earth
        }
    }
}

impl ToKey<Bodies> for Bodies {
    /// The canonical two-letter key of the body.
    fn to_key(&self) -> (r: &'static str) {
        match self {
            Bodies::Sun => "su",
            Bodies::Moon => "mo",
            Bodies::Mercury => "me",
            Bodies::Venus => "ve",
            Bodies::Earth => "ea",
            Bodies::Mars => "ma",
            Bodies::Jupiter => "ju",
            Bodies::Saturn => "sa",
            Bodies::Neptune => "ne",
            Bodies::Uranus => "ur",
            Bodies::Pluto => "pl",
            Bodies::TrueNode => "ra",
            Bodies::MeanNode => "mn",
            Bodies::Kronos => "kr",
            Bodies::Isis => "is",
            Bodies::Juno => "jn",
            Bodies::Ceres => "ce",
            Bodies::Chiron => "ch",
            Bodies::SouthNode => "sn",
        }
    }
}

/// The descriptive record of a body used by the report layer.
#[derive(Debug, Clone)]
pub struct GrahaInfo {
    pub num: u8,
    pub jy_num: u8,
    pub key: String,
    pub icon: String,
    pub nature: Vec<String>,
    pub gender: char,
    pub bhuta: String,
    pub guna: String,
    pub caste: u8,
    pub dhatu: u8,
    pub dosha: Vec<String>,
    pub friends: Vec<String>,
    pub neutral: Vec<String>,
    pub enemies: Vec<String>,
    pub own_sign: Vec<u8>,
    pub exalted_degree: u16,
    pub mula_trikon: u8,
    pub mula_trikon_degrees: Vec<u16>,
    pub chara_karaka_reverse: bool,
}

} // verus!
