//! Divisional-chart descriptors: which harmonic divisions belong to
//! which classification scheme.
use vstd::prelude::*;

verus! {

/// One harmonic division and the schemes it belongs to.
#[derive(Debug, Copy, Clone, PartialEq, Eq, Structural)]
pub struct VargaItem {
    pub num: u8,
    pub parashari: bool,
    pub parivritti: bool,
    pub tajik: bool,
    pub nadi: bool,
}

impl VargaItem {
    pub fn new(num: u8, parashari: bool, parivritti: bool, tajik: bool, nadi: bool) -> (r:
        VargaItem)
        ensures
            r == (VargaItem { num, parashari, parivritti, tajik, nadi }),
    {
        VargaItem { num, parashari, parivritti, tajik, nadi }
    }
}

} // verus!
