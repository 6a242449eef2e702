//! The observer's place on Earth.
use vstd::prelude::*;

verus! {

/// Altitude above sea level (metres) assumed when a caller gives none.
pub const DEFAULT_ALTITUDE: i64 = 10;

/// A geographic position: latitude and longitude in micro-degrees,
/// altitude in metres.
#[derive(Debug, Copy, Clone, PartialEq, Eq, Structural)]
pub struct GeoPos {
    pub lat: i64,
    pub lng: i64,
    pub alt: i64,
}

impl GeoPos {
    pub fn new(lat: i64, lng: i64, alt: i64) -> (r: GeoPos)
        ensures
            r == (GeoPos { lat, lng, alt }),
    {
        GeoPos { lat, lng, alt }
    }

    /// A position at the default altitude.
    pub fn simple(lat: i64, lng: i64) -> (r: GeoPos)
        ensures
            r == (GeoPos { lat, lng, alt: DEFAULT_ALTITUDE }),
    {
        GeoPos { lat, lng, alt: DEFAULT_ALTITUDE }
    }

    /// The origin position used when none is required.
    pub fn zero() -> (r: GeoPos)
        ensures
            r == (GeoPos { lat: 0i64, lng: 0i64, alt: DEFAULT_ALTITUDE }),
    {
        GeoPos { lat: 0, lng: 0, alt: DEFAULT_ALTITUDE }
    }
}

} // verus!
