//! Transit-finding engine for celestial objects: locates horizon crossings
//! (rise, set) and meridian passages (mc, ic) of a body over one local day,
//! tracks its minimum and maximum altitude, and degrades gracefully near the
//! poles where a body may stay above or below the horizon for months.
//!
//! All angles are fixed-point integers in micro-degrees (1 degree =
//! 1_000_000 units) and all times are integers in seconds on the Julian-day
//! scale (one Julian day = 86_400 seconds, day boundaries at UTC noon).
//! The ephemeris itself — the altitude of a body at a given instant — is an
//! external collaborator: callers sample it and hand the engine plain
//! integer altitude sequences, and every decision the engine takes on them
//! is verified.

pub mod ayanamshas;
pub mod converters;
pub mod general;
pub mod geo_pos;
pub mod graha_values;
pub mod help;
pub mod i_time;
pub mod julian_date;
pub mod math_funcs;
pub mod minmax;
pub mod traits;
pub mod transitions;
pub mod transposed_transitions;
pub mod units;
pub mod varga_values;
