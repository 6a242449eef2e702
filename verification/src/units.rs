//! Fixed-point scales shared by the whole engine.
use vstd::prelude::*;

verus! {

/// One degree, in micro-degrees.
pub const DEG: i64 = 1_000_000;

/// Seconds in one day on the Julian-day scale.
pub const SECS_PER_DAY: i64 = 86400;

/// Seconds in half a day; a Julian day begins at UTC noon, so a UTC
/// midnight lies half a day past a whole-day boundary.
pub const HALF_DAY_SECS: i64 = 43200;

} // verus!
