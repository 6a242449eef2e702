//! The Indian time of day derived from the Sun's transits: the
//! progress through the current natural day (sunrise to sunrise, or
//! the culminations when the Sun does not cross the horizon), and its
//! traditional subdivisions.
use vstd::prelude::*;

use crate::julian_date::DateTimeParts;
use crate::julian_date::DAYS_TO_UNIX_EPOCH;
use crate::julian_date::MAX_CIVIL_JD_SECS;
use crate::julian_date::MIN_CIVIL_JD_SECS;
use crate::julian_date::UNIX_EPOCH_JD_SECS;
use crate::julian_date::civil_fields_in_range;
use crate::julian_date::days_from_civil;
use crate::julian_date::julian_day_to_date_time;
use crate::julian_date::spec_civil_fields_in_range;
use crate::julian_date::spec_days_from_civil;
use crate::julian_date::spec_jd_to_date_time;
use crate::units::SECS_PER_DAY;

verus! {

/// A moment within the observer's natural day, with its calendar
/// coordinates and the traditional subdivisions of the day span.
/// progress_micro counts millionths of the span from the day's start;
/// day_length is the span in seconds.
#[derive(Debug, Copy, Clone, PartialEq, Eq, Structural)]
pub struct ITime {
    pub year: i64,
    pub day_num: i64,
    pub progress_micro: i64,
    pub day_length: i64,
    pub is_day_time: bool,
    pub day_before: bool,
    pub muhurta: i64,
    pub ghati: i64,
    pub vighati: i64,
    pub lipta: i64,
    pub week_day_num: i64,
}

/// The ordinal of a date within its year.
pub open spec fn spec_day_of_year(y: int, m: int, d: int) -> int {
    spec_days_from_civil(y, m, d) - spec_days_from_civil(y, 1, 1) + 1
}

/// The weekday number of an instant in the 1-is-Sunday convention the
/// report layer uses.
pub open spec fn spec_week_day_num(jd: int) -> int {
    let z = (jd - UNIX_EPOCH_JD_SECS) / (SECS_PER_DAY as int);
    let iso = ((z + DAYS_TO_UNIX_EPOCH) % 7 + 2) % 7 + 1;
    if iso == 7 {
        1
    } else {
        iso + 1
    }
}

/// The moment's place in its natural day, as ITime::new computes it.
pub open spec fn spec_itime(
    ref_jd: int,
    prev_rise_jd: int,
    rise_jd: int,
    set_jd: int,
    next_rise_jd: int,
    start_mode: int,
    offset_secs: int,
) -> ITime {
    let prev_start = ref_jd < rise_jd;
    let day_before = prev_start && start_mode == 0;
    let is_day_time = (!day_before && ref_jd < set_jd && start_mode != -1) || start_mode == 1;
    let day_start = if prev_start {
        prev_rise_jd
    } else {
        rise_jd
    };
    let day_length = if prev_start {
        rise_jd - prev_rise_jd
    } else {
        next_rise_jd - rise_jd
    };
    let shifted = ref_jd + offset_secs + (if day_before {
        -(SECS_PER_DAY as int)
    } else {
        0
    });
    let dt = spec_jd_to_date_time(shifted);
    let in_range = spec_civil_fields_in_range(dt);
    let elapsed = ref_jd - day_start;
    ITime {
        year: if in_range {
            dt.year
        } else {
            1970
        },
        day_num: if in_range {
            spec_day_of_year(dt.year as int, dt.month as int, dt.day as int) as i64
        } else {
            1
        },
        progress_micro: (elapsed * 1_000_000 / day_length) as i64,
        day_length: day_length as i64,
        is_day_time,
        day_before,
        muhurta: (elapsed * 30 / day_length) as i64,
        ghati: (elapsed * 60 / day_length) as i64,
        vighati: (elapsed * 1800 / day_length % 60) as i64,
        lipta: (elapsed * 1800 / day_length % 60) as i64,
        week_day_num: spec_week_day_num(shifted) as i64,
    }
}

impl ITime {
    /// Place an instant within its natural day, bracketed by the given
    /// Sun transits: the previous rise, the day's rise and set, and
    /// the next rise, with start_mode telling a circumpolar day apart
    /// (1 permanently up, -1 permanently down, 0 ordinary) and
    /// offset_secs the observer's time-zone shift.
    #[verifier::rlimit(100)]
    pub fn new(
        ref_jd: i64,
        prev_rise_jd: i64,
        rise_jd: i64,
        set_jd: i64,
        next_rise_jd: i64,
        start_mode: i8,
        offset_secs: i32,
    ) -> (r: ITime)
        requires
            MIN_CIVIL_JD_SECS + 2 * SECS_PER_DAY <= ref_jd <= MAX_CIVIL_JD_SECS - SECS_PER_DAY,
            MIN_CIVIL_JD_SECS <= prev_rise_jd < rise_jd < next_rise_jd <= MAX_CIVIL_JD_SECS,
            MIN_CIVIL_JD_SECS <= set_jd <= MAX_CIVIL_JD_SECS,
            prev_rise_jd <= ref_jd,
            -SECS_PER_DAY <= offset_secs <= SECS_PER_DAY,
        ensures
            r == spec_itime(
                ref_jd as int,
                prev_rise_jd as int,
                rise_jd as int,
                set_jd as int,
                next_rise_jd as int,
                start_mode as int,
                offset_secs as int,
            ),
    {
        let prev_start = ref_jd < rise_jd;
        let day_before = prev_start && start_mode == 0;
        let is_day_time = (!day_before && ref_jd < set_jd && start_mode != -1) || start_mode == 1;
        let day_start = if prev_start {
            prev_rise_jd
        } else {
            rise_jd
        };
        let day_length = if prev_start {
            rise_jd - prev_rise_jd
        } else {
            next_rise_jd - rise_jd
        };
        let shifted = ref_jd + (offset_secs as i64) + (if day_before {
            -SECS_PER_DAY
        } else {
            0
        });
        let dt = julian_day_to_date_time(shifted);
        let elapsed = ref_jd - day_start;
        proof {
            assert(0 <= elapsed * 1_000_000 <= 400_000_000_000_000_000) by (nonlinear_arith)
                requires
                    0 <= elapsed <= 400_000_000_000,
            ;
            assert(0 <= elapsed * 1800 && 0 <= elapsed * 30 && 0 <= elapsed * 60 && elapsed * 1800
                <= 800_000_000_000_000) by (nonlinear_arith)
                requires
                    0 <= elapsed <= 400_000_000_000,
            ;
        }
        let (year, day_num) = if civil_fields_in_range(&dt) {
            let year_start = days_from_civil(dt.year, 1, 1);
            let this_day = days_from_civil(dt.year, dt.month, dt.day);
            (dt.year, this_day - year_start + 1)
        } else {
            (1970, 1)
        };
        let z = crate::julian_date::div_floor(shifted - UNIX_EPOCH_JD_SECS, SECS_PER_DAY);
        let iso = ((z + DAYS_TO_UNIX_EPOCH) % 7 + 2) % 7 + 1;
        let week_day_num = if iso == 7 {
            1
        } else {
            iso + 1
        };
        ITime {
            year,
            day_num,
            progress_micro: elapsed * 1_000_000 / day_length,
            day_length,
            is_day_time,
            day_before,
            muhurta: elapsed * 30 / day_length,
            ghati: elapsed * 60 / day_length,
            vighati: elapsed * 1800 / day_length % 60,
            lipta: elapsed * 1800 / day_length % 60,
            week_day_num,
        }
    }
}

} // verus!
