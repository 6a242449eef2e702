//! The time scale: instants are integers in seconds on the Julian-day
//! scale (one day is 86_400 seconds, whole-day boundaries at UTC noon),
//! converted to and from unix time, the civil calendar, and ISO-8601
//! date-time strings.
use vstd::prelude::*;

use vstd::string::StringSliceAdditionalSpecFns;
use crate::units::SECS_PER_DAY;

verus! {

/// The unix epoch 1970-01-01T00:00:00 UTC on the Julian-day scale, in
/// whole days (the epoch falls half a day past this boundary).
pub const UNIX_EPOCH_JD_DAYS: i64 = 2440587;

/// The unix epoch on the Julian-day scale, in seconds:
/// 2440587 days and a half.
pub const UNIX_EPOCH_JD_SECS: i64 = 210_866_760_000;

/// Civil days between 0000-03-01 and 1970-01-01, used by the calendar
/// conversions below.
pub const DAYS_TO_UNIX_EPOCH: i64 = 719468;

/// The fixed quantities of the Julian-day reference epoch.
#[derive(Debug, Copy, Clone, PartialEq, Eq, Structural)]
pub enum JulianDayEpoch {
    Days,
    Hours,
    RefYear,
}

impl JulianDayEpoch {
    /// The quantity itself: the epoch's whole days, the half-day hour
    /// shift, or the reference calendar year.
    pub fn as_i64(self) -> (r: i64)
        ensures
            self is Days ==> r == UNIX_EPOCH_JD_DAYS,
            self is Hours ==> r == 12,
            self is RefYear ==> r == 1970,
    {
        match self {
            JulianDayEpoch::Days => UNIX_EPOCH_JD_DAYS,
            JulianDayEpoch::Hours => 12,
            JulianDayEpoch::RefYear => 1970,
        }
    }
}

/// Bound on the unix times and Julian-day seconds this module accepts:
/// roughly two hundred thousand years to either side, far past any
/// representable civil date, small enough that no conversion can
/// overflow.
pub const MAX_EPOCH_SECS: i64 = 0x60_0000_0000_00;

/// Convert a unix timestamp (seconds) to Julian-day seconds.
pub fn unixtime_to_julian_day(ts: i64) -> (r: i64)
    requires
        -MAX_EPOCH_SECS <= ts <= MAX_EPOCH_SECS,
    ensures
        r == ts + UNIX_EPOCH_JD_SECS,
{
    ts + UNIX_EPOCH_JD_SECS
}

/// Convert Julian-day seconds back to a unix timestamp (seconds).
pub fn julian_day_to_unixtime(jd: i64) -> (r: i64)
    requires
        -MAX_EPOCH_SECS <= jd <= MAX_EPOCH_SECS,
    ensures
        r == jd - UNIX_EPOCH_JD_SECS,
{
    jd - UNIX_EPOCH_JD_SECS
}

/// The two conversions invert each other on the whole accepted range.
pub proof fn lemma_unixtime_julian_day_round_trip(ts: int, jd: int)
    ensures
        (ts + UNIX_EPOCH_JD_SECS) - UNIX_EPOCH_JD_SECS == ts,
        (jd - UNIX_EPOCH_JD_SECS) + UNIX_EPOCH_JD_SECS == jd,
{
}

/// Flooring division by a positive divisor, the rounding of the civil
/// calendar: identical to spec-level Euclidean division.
pub fn div_floor(a: i64, b: i64) -> (r: i64)
    requires
        b > 0,
        -MAX_EPOCH_SECS <= a <= MAX_EPOCH_SECS,
        b <= MAX_EPOCH_SECS,
    ensures
        r == a as int / b as int,
{
    proof {
        vstd::arithmetic::div_mod::lemma_fundamental_div_mod(a as int, b as int);
        vstd::arithmetic::div_mod::lemma_fundamental_div_mod(-(a as int), b as int);
    }
    if a >= 0 {
        a / b
    } else {
        let q = (-a) / b;
        let rem = (-a) % b;
        if rem == 0 {
            proof {
                assert(a as int == (-q) * b + 0) by (nonlinear_arith)
                    requires
                        -(a as int) == b * q + 0,
                ;
                vstd::arithmetic::div_mod::lemma_fundamental_div_mod_converse_div(
                    a as int,
                    b as int,
                    -q,
                    0,
                );
            }
            -q
        } else {
            proof {
                assert(a as int / b as int == -q - 1) by {
                    assert(a as int == (-q - 1) * b + (b - rem)) by (nonlinear_arith)
                        requires
                            -(a as int) == b * q + rem,
                    ;
                    vstd::arithmetic::div_mod::lemma_fundamental_div_mod_converse_div(
                        a as int,
                        b as int,
                        -q - 1,
                        b - rem,
                    );
                }
            }
            -q - 1
        }
    }
}

/// The remainder matching div_floor: identical to the spec-level
/// Euclidean remainder, always in [0, b).
pub fn mod_floor(a: i64, b: i64) -> (r: i64)
    requires
        b > 0,
        -MAX_EPOCH_SECS <= a <= MAX_EPOCH_SECS,
        b <= MAX_EPOCH_SECS,
    ensures
        r == a as int % b as int,
        0 <= r < b,
{
    proof {
        vstd::arithmetic::div_mod::lemma_fundamental_div_mod(a as int, b as int);
        assert(b * (a as int / b as int) == (a as int / b as int) * b) by (nonlinear_arith);
    }
    let q = div_floor(a, b);
    a - q * b
}

/// A civil calendar date with a time of day.
#[derive(Debug, Copy, Clone, PartialEq, Eq, Structural)]
pub struct DateTimeParts {
    pub year: i64,
    pub month: i64,
    pub day: i64,
    pub hour: i64,
    pub minute: i64,
    pub second: i64,
}

/// The fields lie in their calendar ranges (months of their true
/// lengths are the parser's caller's concern; this bound is what the
/// arithmetic needs).
pub open spec fn spec_civil_fields_in_range(p: DateTimeParts) -> bool {
    &&& 1 <= p.year <= 9999
    &&& 1 <= p.month <= 12
    &&& 1 <= p.day <= 31
    &&& 0 <= p.hour <= 23
    &&& 0 <= p.minute <= 59
    &&& 0 <= p.second <= 59
}

/// Civil days since 1970-01-01 of a date, by era decomposition: the
/// year is shifted so it starts in March, split into 400-year eras of
/// 146097 days each, and the day-of-year read off the shifted month.
pub open spec fn spec_days_from_civil(y0: int, m: int, d: int) -> int {
    let y = if m <= 2 {
        y0 - 1
    } else {
        y0
    };
    let era = y / 400;
    let yoe = y - era * 400;
    let mp = if m > 2 {
        m - 3
    } else {
        m + 9
    };
    let doy = (153 * mp + 2) / 5 + d - 1;
    let doe = yoe * 365 + yoe / 4 - yoe / 100 + doy;
    era * 146097 + doe - DAYS_TO_UNIX_EPOCH
}

/// Civil days since 1970-01-01 of a calendar date.
pub fn days_from_civil(year: i64, month: i64, day: i64) -> (r: i64)
    requires
        1 <= year <= 9999,
        1 <= month <= 12,
        1 <= day <= 31,
    ensures
        r == spec_days_from_civil(year as int, month as int, day as int),
        -DAYS_TO_UNIX_EPOCH <= r <= 3_000_000,
{
    let y: i64 = if month <= 2 {
        year - 1
    } else {
        year
    };
    let era = y / 400;
    proof {
        vstd::arithmetic::div_mod::lemma_fundamental_div_mod(y as int, 400);
        vstd::arithmetic::div_mod::lemma_div_is_ordered(0, y as int, 400);
        vstd::arithmetic::div_mod::lemma_div_is_ordered(y as int, 9999, 400);
    }
    let yoe = y - era * 400;
    let mp: i64 = if month > 2 {
        month - 3
    } else {
        month + 9
    };
    let doy = (153 * mp + 2) / 5 + day - 1;
    let doe = yoe * 365 + yoe / 4 - yoe / 100 + doy;
    era * 146097 + doe - DAYS_TO_UNIX_EPOCH
}

/// The calendar date of a count of civil days since 1970-01-01, by the
/// inverse era decomposition.
pub open spec fn spec_civil_from_days(z0: int) -> (int, int, int) {
    let z = z0 + DAYS_TO_UNIX_EPOCH;
    let era = z / 146097;
    let doe = z - era * 146097;
    let yoe = (doe - doe / 1460 + doe / 36524 - doe / 146096) / 365;
    let y = yoe + era * 400;
    let doy = doe - (365 * yoe + yoe / 4 - yoe / 100);
    let mp = (5 * doy + 2) / 153;
    let d = doy - (153 * mp + 2) / 5 + 1;
    let m = if mp < 10 {
        mp + 3
    } else {
        mp - 9
    };
    (if m <= 2 {
        y + 1
    } else {
        y
    }, m, d)
}

/// The calendar date of a count of civil days since 1970-01-01.
#[verifier::rlimit(60)]
pub fn civil_from_days(z0: i64) -> (r: (i64, i64, i64))
    requires
        -DAYS_TO_UNIX_EPOCH <= z0 <= 3_000_000,
    ensures
        (r.0 as int, r.1 as int, r.2 as int) == spec_civil_from_days(z0 as int),
{
    let z = z0 + DAYS_TO_UNIX_EPOCH;
    let era = z / 146097;
    proof {
        vstd::arithmetic::div_mod::lemma_fundamental_div_mod(z as int, 146097);
        vstd::arithmetic::div_mod::lemma_div_is_ordered(0, z as int, 146097);
        vstd::arithmetic::div_mod::lemma_div_is_ordered(z as int, 4_000_000, 146097);
    }
    let doe = z - era * 146097;
    let yoe = (doe - doe / 1460 + doe / 36524 - doe / 146096) / 365;
    proof {
        vstd::arithmetic::div_mod::lemma_div_is_ordered(0, doe as int - doe as int / 1460, 365);
        vstd::arithmetic::div_mod::lemma_div_is_ordered(
            doe as int - doe as int / 1460 + doe as int / 36524 - doe as int / 146096,
            146097,
            365,
        );
        vstd::arithmetic::div_mod::lemma_div_is_ordered(0, doe as int, 1460);
        vstd::arithmetic::div_mod::lemma_div_is_ordered(0, doe as int, 36524);
        vstd::arithmetic::div_mod::lemma_div_is_ordered(0, doe as int, 146096);
        vstd::arithmetic::div_mod::lemma_div_is_ordered(doe as int, 146097, 1460);
    }
    let y = yoe + era * 400;
    let doy = doe - (365 * yoe + yoe / 4 - yoe / 100);
    let mp = (5 * doy + 2) / 153;
    proof {
        vstd::arithmetic::div_mod::lemma_div_is_ordered(0, 5 * doy as int + 2, 153);
        vstd::arithmetic::div_mod::lemma_div_is_ordered(5 * doy as int + 2, 2_000_000, 153);
    }
    let d = doy - (153 * mp + 2) / 5 + 1;
    let m = if mp < 10 {
        mp + 3
    } else {
        mp - 9
    };
    (if m <= 2 {
        y + 1
    } else {
        y
    }, m, d)
}

/// The ISO weekday of a count of civil days since 1970-01-01: Monday is
/// 1 and Sunday 7; the epoch day itself was a Thursday.
pub fn weekday_from_days(z: i64) -> (r: i64)
    requires
        -DAYS_TO_UNIX_EPOCH <= z <= 3_000_000,
    ensures
        r == ((z + DAYS_TO_UNIX_EPOCH) % 7 + 2) % 7 + 1,
        1 <= r <= 7,
{
    let w = (z + DAYS_TO_UNIX_EPOCH) % 7;
    (w + 2) % 7 + 1
}

/// Earliest instant (Julian-day seconds) whose civil date the calendar
/// conversions cover.
pub const MIN_CIVIL_JD_SECS: i64 = 148_704_724_800;

/// Latest instant (Julian-day seconds) whose civil date the calendar
/// conversions cover.
pub const MAX_CIVIL_JD_SECS: i64 = 470_066_760_000;

/// The civil date and time of day of an instant, as the calendar
/// decomposition of its unix time.
pub open spec fn spec_jd_to_date_time(jd: int) -> DateTimeParts {
    let unix = jd - UNIX_EPOCH_JD_SECS;
    let z = unix / (SECS_PER_DAY as int);
    let sod = unix % (SECS_PER_DAY as int);
    let ymd = spec_civil_from_days(z);
    DateTimeParts {
        year: ymd.0 as i64,
        month: ymd.1 as i64,
        day: ymd.2 as i64,
        hour: (sod / 3600) as i64,
        minute: (sod % 3600 / 60) as i64,
        second: (sod % 60) as i64,
    }
}

/// Split an instant into its civil date and time of day.
pub fn julian_day_to_date_time(jd: i64) -> (r: DateTimeParts)
    requires
        MIN_CIVIL_JD_SECS <= jd <= MAX_CIVIL_JD_SECS,
    ensures
        r == spec_jd_to_date_time(jd as int),
{
    let unix = jd - UNIX_EPOCH_JD_SECS;
    proof {
        vstd::arithmetic::div_mod::lemma_div_is_ordered(
            -(DAYS_TO_UNIX_EPOCH as int) * SECS_PER_DAY,
            unix as int,
            SECS_PER_DAY as int,
        );
        vstd::arithmetic::div_mod::lemma_div_is_ordered(
            unix as int,
            3_000_000 * (SECS_PER_DAY as int),
            SECS_PER_DAY as int,
        );
        assert(-(DAYS_TO_UNIX_EPOCH as int) * SECS_PER_DAY / (SECS_PER_DAY as int)
            == -DAYS_TO_UNIX_EPOCH);
        assert(3_000_000 * (SECS_PER_DAY as int) / (SECS_PER_DAY as int) == 3_000_000)
           ;
    }
    let z = div_floor(unix, SECS_PER_DAY);
    let sod = mod_floor(unix, SECS_PER_DAY);
    let ymd = civil_from_days(z);
    DateTimeParts {
        year: ymd.0,
        month: ymd.1,
        day: ymd.2,
        hour: sod / 3600,
        minute: sod % 3600 / 60,
        second: sod % 60,
    }
}

/// The instant of a civil date and time of day: its civil day count
/// scaled to seconds, plus the time of day, on the Julian-day scale.
pub open spec fn spec_date_time_to_jd(p: DateTimeParts) -> int {
    spec_days_from_civil(p.year as int, p.month as int, p.day as int) * (SECS_PER_DAY as int)
        + p.hour * 3600 + p.minute * 60 + p.second + UNIX_EPOCH_JD_SECS
}

/// Combine a civil date and time of day into an instant.
pub fn date_time_to_jd(p: &DateTimeParts) -> (r: i64)
    requires
        spec_civil_fields_in_range(*p),
    ensures
        r == spec_date_time_to_jd(*p),
        MIN_CIVIL_JD_SECS <= r <= MAX_CIVIL_JD_SECS,
{
    let days = days_from_civil(p.year, p.month, p.day);
    proof {
        vstd::arithmetic::mul::lemma_mul_inequality(
            -(DAYS_TO_UNIX_EPOCH as int),
            days as int,
            SECS_PER_DAY as int,
        );
        vstd::arithmetic::mul::lemma_mul_inequality(days as int, 3_000_000, SECS_PER_DAY as int);
    }
    days * SECS_PER_DAY + p.hour * 3600 + p.minute * 60 + p.second + UNIX_EPOCH_JD_SECS
}

/// The decimal digit character of a value in 0..=9.
pub open spec fn spec_digit(d: int) -> char {
    if d == 0 {
        '0'
    } else if d == 1 {
        '1'
    } else if d == 2 {
        '2'
    } else if d == 3 {
        '3'
    } else if d == 4 {
        '4'
    } else if d == 5 {
        '5'
    } else if d == 6 {
        '6'
    } else if d == 7 {
        '7'
    } else if d == 8 {
        '8'
    } else {
        '9'
    }
}

/// A two-digit zero-padded decimal rendering.
pub open spec fn spec_two_digits(n: int) -> Seq<char> {
    seq![spec_digit(n / 10), spec_digit(n % 10)]
}

/// A four-digit zero-padded decimal rendering.
pub open spec fn spec_four_digits(n: int) -> Seq<char> {
    seq![
        spec_digit(n / 1000),
        spec_digit(n / 100 % 10),
        spec_digit(n / 10 % 10),
        spec_digit(n % 10),
    ]
}

/// Append one decimal digit character.
fn append_digit(s: &mut String, d: i64)
    requires
        0 <= d <= 9,
    ensures
        final (s)@ == old(s)@ + seq![spec_digit(d as int)],
{
    proof {
        reveal_strlit("0");
        reveal_strlit("1");
        reveal_strlit("2");
        reveal_strlit("3");
        reveal_strlit("4");
        reveal_strlit("5");
        reveal_strlit("6");
        reveal_strlit("7");
        reveal_strlit("8");
        reveal_strlit("9");
    }
    if d == 0 {
        s.append("0");
    } else if d == 1 {
        s.append("1");
    } else if d == 2 {
        s.append("2");
    } else if d == 3 {
        s.append("3");
    } else if d == 4 {
        s.append("4");
    } else if d == 5 {
        s.append("5");
    } else if d == 6 {
        s.append("6");
    } else if d == 7 {
        s.append("7");
    } else if d == 8 {
        s.append("8");
    } else {
        s.append("9");
    }
    proof {
        assert(final (s)@ =~= old(s)@ + seq![spec_digit(d as int)]);
    }
}

/// Append a two-digit zero-padded number.
fn append_two_digits(s: &mut String, n: i64)
    requires
        0 <= n <= 99,
    ensures
        final (s)@ == old(s)@ + spec_two_digits(n as int),
{
    append_digit(s, n / 10);
    append_digit(s, n % 10);
    proof {
        assert(final (s)@ =~= old(s)@ + spec_two_digits(n as int));
    }
}

/// Append a four-digit zero-padded number.
fn append_four_digits(s: &mut String, n: i64)
    requires
        0 <= n <= 9999,
    ensures
        final (s)@ == old(s)@ + spec_four_digits(n as int),
{
    append_digit(s, n / 1000);
    append_digit(s, n / 100 % 10);
    append_digit(s, n / 10 % 10);
    append_digit(s, n % 10);
    proof {
        assert(final (s)@ =~= old(s)@ + spec_four_digits(n as int));
    }
}

/// The ISO-8601 rendering of a civil date and time:
/// YYYY-MM-DDTHH:MM:SS.
pub open spec fn spec_iso_datetime_chars(p: DateTimeParts) -> Seq<char> {
    spec_four_digits(p.year as int) + seq!['-'] + spec_two_digits(p.month as int) + seq!['-']
        + spec_two_digits(p.day as int) + seq!['T'] + spec_two_digits(p.hour as int) + seq![':']
        + spec_two_digits(p.minute as int) + seq![':'] + spec_two_digits(p.second as int)
}

/// Format a civil date and time as an ISO-8601 string.
pub fn date_time_to_iso_string(p: &DateTimeParts) -> (r: String)
    requires
        spec_civil_fields_in_range(*p),
    ensures
        r@ == spec_iso_datetime_chars(*p),
{
    proof {
        reveal_strlit("-");
        reveal_strlit("T");
        reveal_strlit(":");
    }
    let mut s = String::new();
    append_four_digits(&mut s, p.year);
    s.append("-");
    append_two_digits(&mut s, p.month);
    s.append("-");
    append_two_digits(&mut s, p.day);
    s.append("T");
    append_two_digits(&mut s, p.hour);
    s.append(":");
    append_two_digits(&mut s, p.minute);
    s.append(":");
    append_two_digits(&mut s, p.second);
    proof {
        assert(s@ =~= spec_iso_datetime_chars(*p));
    }
    s
}

/// Whether a decomposed date-time lies in the civil field ranges.
pub fn civil_fields_in_range(p: &DateTimeParts) -> (r: bool)
    ensures
        r == spec_civil_fields_in_range(*p),
{
    1 <= p.year && p.year <= 9999 && 1 <= p.month && p.month <= 12 && 1 <= p.day && p.day <= 31
        && 0 <= p.hour && p.hour <= 23 && 0 <= p.minute && p.minute <= 59 && 0 <= p.second
        && p.second <= 59
}

/// Format an instant as an ISO-8601 date-time string; an instant whose
/// calendar decomposition escapes the civil field ranges yields the
/// empty string.
pub fn julian_day_to_iso_datetime(jd: i64) -> (r: String)
    requires
        MIN_CIVIL_JD_SECS <= jd <= MAX_CIVIL_JD_SECS,
    ensures
        spec_civil_fields_in_range(spec_jd_to_date_time(jd as int)) ==> r@
            == spec_iso_datetime_chars(spec_jd_to_date_time(jd as int)),
        !spec_civil_fields_in_range(spec_jd_to_date_time(jd as int)) ==> r@ == Seq::<
            char,
        >::empty(),
{
    let p = julian_day_to_date_time(jd);
    if civil_fields_in_range(&p) {
        date_time_to_iso_string(&p)
    } else {
        String::new()
    }
}

/// A decimal digit byte.
pub open spec fn spec_is_digit(c: u8) -> bool {
    48 <= c <= 57
}

/// The value of a decimal digit byte.
pub open spec fn spec_digit_val(c: u8) -> int {
    c - 48
}

/// Index of the first dot at or after position i, or the length when
/// there is none: anything after a dot is a fractional part the parser
/// ignores.
pub open spec fn spec_first_dot(b: Seq<u8>, i: nat) -> int
    decreases b.len() - i,
{
    if i >= b.len() {
        b.len() as int
    } else if b[i as int] == 46 {
        i as int
    } else {
        spec_first_dot(b, i + 1)
    }
}

/// The date part has the shape YYYY-MM-DD.
pub open spec fn spec_date_shape_ok(b: Seq<u8>) -> bool {
    &&& b.len() >= 10
    &&& spec_is_digit(b[0]) && spec_is_digit(b[1]) && spec_is_digit(b[2]) && spec_is_digit(b[3])
    &&& b[4] == 45
    &&& spec_is_digit(b[5]) && spec_is_digit(b[6])
    &&& b[7] == 45
    &&& spec_is_digit(b[8]) && spec_is_digit(b[9])
}

/// The time part, up to the effective length n, is empty or one of
/// "THH", "THH:MM", "THH:MM:SS", with a space accepted for the T.
pub open spec fn spec_time_shape_ok(b: Seq<u8>, n: int) -> bool {
    ||| n == 10
    ||| (n >= 13 && (b[10] == 84 || b[10] == 32) && spec_is_digit(b[11]) && spec_is_digit(b[12])
        && (n == 13 || (n >= 16 && b[13] == 58 && spec_is_digit(b[14]) && spec_is_digit(b[15]) && (
        n == 16 || (n == 19 && b[16] == 58 && spec_is_digit(b[17]) && spec_is_digit(b[18]))))))
}

/// The civil fields spelled by a well-shaped ISO date-time of effective
/// length n; missing time parts read as zero.
pub open spec fn spec_iso_fields(b: Seq<u8>, n: int) -> DateTimeParts {
    DateTimeParts {
        year: (spec_digit_val(b[0]) * 1000 + spec_digit_val(b[1]) * 100 + spec_digit_val(b[2]) * 10
            + spec_digit_val(b[3])) as i64,
        month: (spec_digit_val(b[5]) * 10 + spec_digit_val(b[6])) as i64,
        day: (spec_digit_val(b[8]) * 10 + spec_digit_val(b[9])) as i64,
        hour: if n >= 13 {
            (spec_digit_val(b[11]) * 10 + spec_digit_val(b[12])) as i64
        } else {
            0
        },
        minute: if n >= 16 {
            (spec_digit_val(b[14]) * 10 + spec_digit_val(b[15])) as i64
        } else {
            0
        },
        second: if n >= 19 {
            (spec_digit_val(b[17]) * 10 + spec_digit_val(b[18])) as i64
        } else {
            0
        },
    }
}

/// The civil date and time spelled by an ISO-8601-like byte string:
/// date, optional time with missing parts read as zero, fractional
/// seconds ignored. A string of any other shape, or one whose fields
/// escape the civil ranges, reads as the unix epoch.
pub open spec fn spec_iso_parse(b: Seq<u8>) -> DateTimeParts {
    let n = spec_first_dot(b, 0);
    let p = spec_iso_fields(b, n);
    if n >= 10 && spec_date_shape_ok(b) && spec_time_shape_ok(b, n)
        && spec_civil_fields_in_range(p) {
        p
    } else {
        DateTimeParts { year: 1970, month: 1, day: 1, hour: 0, minute: 0, second: 0 }
    }
}

/// A decimal digit byte, checked.
fn is_digit_byte(c: u8) -> (r: bool)
    ensures
        r == spec_is_digit(c),
{
    48 <= c && c <= 57
}

/// The value of a checked decimal digit byte.
fn digit_val(c: u8) -> (r: i64)
    requires
        spec_is_digit(c),
    ensures
        r == spec_digit_val(c),
        0 <= r <= 9,
{
    (c - 48) as i64
}

/// Parse an ISO-8601-like date-time string: YYYY-MM-DD, optionally
/// followed by T or a space and a time whose missing minute and second
/// parts read as zero, with any fractional second ignored. A string of
/// any other shape reads as the unix epoch, as does one whose fields
/// escape the civil ranges.
pub fn iso_string_to_datetime(dt: &str) -> (r: DateTimeParts)
    ensures
        r == spec_iso_parse(dt.spec_bytes()),
        spec_civil_fields_in_range(r),
{
    let b = dt.as_bytes();
    let len = b.len();
    let epoch = DateTimeParts { year: 1970, month: 1, day: 1, hour: 0, minute: 0, second: 0 };
    let mut n: usize = 0;
    while n < len && b[n] != 46
        invariant
            0 <= n <= len,
            len == b@.len(),
            b@ == dt.spec_bytes(),
            spec_first_dot(b@, 0) == spec_first_dot(b@, n as nat),
        decreases len - n,
    {
        n = n + 1;
    }
    proof {
        assert(spec_first_dot(b@, n as nat) == n);
    }
    if n < 10 {
        return epoch;
    }
    let date_ok = is_digit_byte(b[0]) && is_digit_byte(b[1]) && is_digit_byte(b[2])
        && is_digit_byte(b[3]) && b[4] == 45 && is_digit_byte(b[5]) && is_digit_byte(b[6]) && b[7]
        == 45 && is_digit_byte(b[8]) && is_digit_byte(b[9]);
    if !date_ok {
        return epoch;
    }
    let time_ok = if n == 10 {
        true
    } else if n >= 13 && (b[10] == 84 || b[10] == 32) && is_digit_byte(b[11]) && is_digit_byte(
        b[12],
    ) {
        if n == 13 {
            true
        } else if n >= 16 && b[13] == 58 && is_digit_byte(b[14]) && is_digit_byte(b[15]) {
            if n == 16 {
                true
            } else {
                n == 19 && b[16] == 58 && is_digit_byte(b[17]) && is_digit_byte(b[18])
            }
        } else {
            false
        }
    } else {
        false
    };
    if !time_ok {
        return epoch;
    }
    let p = DateTimeParts {
        year: digit_val(b[0]) * 1000 + digit_val(b[1]) * 100 + digit_val(b[2]) * 10 + digit_val(
            b[3],
        ),
        month: digit_val(b[5]) * 10 + digit_val(b[6]),
        day: digit_val(b[8]) * 10 + digit_val(b[9]),
        hour: if n >= 13 {
            digit_val(b[11]) * 10 + digit_val(b[12])
        } else {
            0
        },
        minute: if n >= 16 {
            digit_val(b[14]) * 10 + digit_val(b[15])
        } else {
            0
        },
        second: if n >= 19 {
            digit_val(b[17]) * 10 + digit_val(b[18])
        } else {
            0
        },
    };
    if civil_fields_in_range(&p) {
        p
    } else {
        epoch
    }
}

/// The instant spelled by an ISO-8601-like date-time string, on the
/// Julian-day scale; a malformed string reads as the unix epoch.
pub fn datetime_to_julian_day(dt: &str) -> (r: i64)
    ensures
        r == spec_date_time_to_jd(spec_iso_parse(dt.spec_bytes())),
{
    let p = iso_string_to_datetime(dt);
    date_time_to_jd(&p)
}

} // verus!