//! Progression arithmetic and longitude adjustments: mapping elapsed
//! days onto progressed years, and the fixed-point circle operations.
use vstd::prelude::*;

use crate::converters::str_eq_bytes;
use crate::julian_date::DateTimeParts;
use crate::julian_date::MAX_CIVIL_JD_SECS;
use crate::julian_date::MIN_CIVIL_JD_SECS;
use crate::julian_date::date_time_to_jd;
use crate::julian_date::spec_date_time_to_jd;
use crate::transposed_transitions::div_trunc;
use crate::transposed_transitions::spec_div_trunc;
use crate::units::SECS_PER_DAY;
use vstd::string::StringSliceAdditionalSpecFns;

verus! {

/// A full circle, in micro-degrees.
pub const CIRCLE_DEG: i64 = 360_000_000;

/// Half a circle, in micro-degrees.
pub const HALF_CIRCLE_DEG: i64 = 180_000_000;

/// The length of a tropical year, in micro-days.
pub const TROPICAL_YEAR_MICRO_DAYS: i64 = 365_242_199;

/// The length of a sidereal year, in micro-days.
pub const SIDEREAL_YEAR_MICRO_DAYS: i64 = 365_256_366;

/// The length of an anomalistic year, in micro-days.
pub const ANOMALISTIC_YEAR_MICRO_DAYS: i64 = 365_259_636;

/// The year length (micro-days) selected by a year-type key; anything
/// but the sidereal and anomalistic keys selects the tropical year.
pub open spec fn spec_year_length(key: Seq<u8>) -> int {
    if key == "sidereal".spec_bytes() {
        SIDEREAL_YEAR_MICRO_DAYS as int
    } else if key == "anomalistic".spec_bytes() {
        ANOMALISTIC_YEAR_MICRO_DAYS as int
    } else {
        TROPICAL_YEAR_MICRO_DAYS as int
    }
}

/// The year length (micro-days) of a year-type key.
pub fn get_year_length(year_type: &str) -> (r: i64)
    ensures
        r == spec_year_length(year_type.spec_bytes()),
{
    if str_eq_bytes(year_type, "sidereal") {
        SIDEREAL_YEAR_MICRO_DAYS
    } else if str_eq_bytes(year_type, "anomalistic") {
        ANOMALISTIC_YEAR_MICRO_DAYS
    } else {
        TROPICAL_YEAR_MICRO_DAYS
    }
}

/// The progressed instant: the source instant advanced by one day per
/// elapsed year of the selected length — the elapsed seconds scaled
/// down by the year length in days.
pub open spec fn spec_to_progression_jd(source_jd: int, ref_jd: int, year: int) -> int {
    source_jd + spec_div_trunc((ref_jd - source_jd) * 1_000_000, year)
}

/// Map a reference instant onto the day-per-year progression scale
/// anchored at the source instant.
pub fn to_progression_jd(source_jd: i64, ref_jd: i64, year_type: &str) -> (r: i64)
    requires
        MIN_CIVIL_JD_SECS <= source_jd <= MAX_CIVIL_JD_SECS,
        MIN_CIVIL_JD_SECS <= ref_jd <= MAX_CIVIL_JD_SECS,
    ensures
        r == spec_to_progression_jd(
            source_jd as int,
            ref_jd as int,
            spec_year_length(year_type.spec_bytes()),
        ),
        source_jd - 1_200_000_000 <= r <= source_jd + 1_200_000_000,
{
    let year = get_year_length(year_type);
    let age_secs = ref_jd - source_jd;
    proof {
        assert(-400_000_000_000_000_000 <= (age_secs as int) * 1_000_000
            <= 400_000_000_000_000_000) by (nonlinear_arith)
            requires
                -400_000_000_000 <= age_secs <= 400_000_000_000,
        ;
    }
    let scaled = div_trunc(age_secs * 1_000_000, year);
    proof {
        let x = (age_secs as int) * 1_000_000;
        if x >= 0 {
            vstd::arithmetic::div_mod::lemma_div_is_ordered_by_denominator(
                x,
                365_000_000,
                year as int,
            );
            vstd::arithmetic::div_mod::lemma_div_is_ordered(
                x,
                400_000_000_000_000_000,
                365_000_000,
            );
        } else {
            vstd::arithmetic::div_mod::lemma_div_is_ordered_by_denominator(
                -x,
                365_000_000,
                year as int,
            );
            vstd::arithmetic::div_mod::lemma_div_is_ordered(
                -x,
                400_000_000_000_000_000,
                365_000_000,
            );
        }
    }
    source_jd + scaled
}

/// The first instant of a calendar year.
pub open spec fn spec_year_start_jd(start_year: int) -> int {
    spec_date_time_to_jd(
        DateTimeParts {
            year: start_year as i64,
            month: 1i64,
            day: 1i64,
            hour: 0i64,
            minute: 0i64,
            second: 0i64,
        },
    )
}

/// The progressed sample instants of a span of years: for each sample
/// index, the progressed instant stepped by the per-year sampling
/// interval, paired with the real instant stepped by whole year
/// lengths from the start year's beginning.
#[verifier::rlimit(60)]
pub fn calc_progress_day_jds_by_year(
    source_jd: i64,
    start_year: u32,
    years: u16,
    per_year: u8,
) -> (r: Vec<(i64, i64)>)
    requires
        MIN_CIVIL_JD_SECS <= source_jd <= MAX_CIVIL_JD_SECS,
        1970 <= start_year <= 9000,
        1 <= years <= 1000,
        1 <= per_year <= 24,
    ensures
        r@.len() == years * per_year,
        forall|i: int|
            0 <= i < r@.len() ==> (#[trigger] r@[i]).0 == spec_to_progression_jd(
                source_jd as int,
                spec_year_start_jd(start_year as int),
                spec_year_length("tropical".spec_bytes()),
            ) + i * (SECS_PER_DAY as int / per_year as int),
        forall|i: int|
            0 <= i < r@.len() ==> (#[trigger] r@[i]).1 == spec_year_start_jd(start_year as int)
                + i * (TROPICAL_YEAR_MICRO_DAYS as int) * 864 / 10000,
{
    let start_parts = DateTimeParts {
        year: start_year as i64,
        month: 1,
        day: 1,
        hour: 0,
        minute: 0,
        second: 0,
    };
    let start_jd = date_time_to_jd(&start_parts);
    let start_p2_jd = to_progression_jd(source_jd, start_jd, "tropical");
    proof {
        vstd::arithmetic::div_mod::lemma_fundamental_div_mod(
            SECS_PER_DAY as int,
            per_year as int,
        );
        assert(1 <= SECS_PER_DAY as int / (per_year as int) <= SECS_PER_DAY) by (nonlinear_arith)
            requires
                SECS_PER_DAY as int == (per_year as int) * (SECS_PER_DAY as int / (
                per_year as int)) + SECS_PER_DAY as int % (per_year as int),
                0 <= SECS_PER_DAY as int % (per_year as int) < per_year as int,
                1 <= per_year <= 24,
        ;
    }
    let interval = SECS_PER_DAY / (per_year as i64);
    proof {
        assert((years as int) * (per_year as int) <= 24000) by (nonlinear_arith)
            requires
                1 <= years <= 1000,
                1 <= per_year <= 24,
        ;
        assert((years as int) * (per_year as int) >= 0) by (nonlinear_arith)
            requires
                1 <= years,
                1 <= per_year,
        ;
    }
    let num_items: u32 = (years as u32) * (per_year as u32);
    let mut r: Vec<(i64, i64)> = Vec::new();
    let mut i: u32 = 0;
    while i < num_items
        invariant
            0 <= i <= num_items,
            num_items == years * per_year,
            num_items <= 24000,
            1 <= per_year <= 24,
            interval == SECS_PER_DAY as int / per_year as int,
            0 < interval <= SECS_PER_DAY,
            start_jd == spec_year_start_jd(start_year as int),
            MIN_CIVIL_JD_SECS <= start_jd <= MAX_CIVIL_JD_SECS,
            start_p2_jd == spec_to_progression_jd(
                source_jd as int,
                start_jd as int,
                spec_year_length("tropical".spec_bytes()),
            ),
            -1_000_000_000_000 <= start_p2_jd <= 1_000_000_000_000,
            r@.len() == i,
            forall|j: int|
                0 <= j < i ==> (#[trigger] r@[j]).0 == start_p2_jd + j * (interval as int),
            forall|j: int|
                0 <= j < i ==> (#[trigger] r@[j]).1 == start_jd + j * (
                TROPICAL_YEAR_MICRO_DAYS as int) * 864 / 10000,
        decreases num_items - i,
    {
        proof {
            assert(0 <= (i as int) * (interval as int) <= 24000 * 86400) by (nonlinear_arith)
                requires
                    0 <= i <= 24000,
                    0 < interval <= 86400,
            ;
            assert(0 <= (i as int) * (TROPICAL_YEAR_MICRO_DAYS as int) <= 24000
                * 365_242_199_i64) by (nonlinear_arith)
                requires
                    0 <= i <= 24000,
            ;
        }
        let ref_jd = start_p2_jd + (i as i64) * interval;
        let year_scaled = (i as i64) * TROPICAL_YEAR_MICRO_DAYS;
        let ref_year_jd = start_jd + year_scaled * 864 / 10000;
        r.push((ref_jd, ref_year_jd));
        i = i + 1;
    }
    r
}

/// The point opposite a longitude on the circle.
pub fn calc_opposite(lng: i64) -> (r: i64)
    requires
        0 <= lng < CIRCLE_DEG,
    ensures
        r == (lng + HALF_CIRCLE_DEG) % (CIRCLE_DEG as int),
        0 <= r < CIRCLE_DEG,
{
    (lng + HALF_CIRCLE_DEG) % CIRCLE_DEG
}

/// The longitude a body key reports: the south node is the point
/// opposite the node position the ephemeris hands back; every other
/// body reports its position unchanged.
pub fn adjust_lng_by_body_key(key: &str, lng: i64) -> (r: i64)
    requires
        0 <= lng < CIRCLE_DEG,
    ensures
        key.spec_bytes() == "ke".spec_bytes() ==> r == (lng + HALF_CIRCLE_DEG) % (
        CIRCLE_DEG as int),
        key.spec_bytes() != "ke".spec_bytes() ==> r == lng,
{
    if str_eq_bytes(key, "ke") {
        calc_opposite(lng)
    } else {
        lng
    }
}

/// A longitude shifted back by an offset, kept on the circle.
pub fn subtract_360(lng: i64, offset: i64) -> (r: i64)
    requires
        0 <= lng < CIRCLE_DEG,
        0 <= offset < CIRCLE_DEG,
    ensures
        r == (lng + CIRCLE_DEG - offset) % (CIRCLE_DEG as int),
        0 <= r < CIRCLE_DEG,
{
    (lng + CIRCLE_DEG - offset) % CIRCLE_DEG
}

} // verus!
