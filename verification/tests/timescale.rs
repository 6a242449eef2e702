//! The integer time scale: unix time, the civil calendar, ISO strings,
//! and the natural-day decomposition.
use astro_transits::i_time::ITime;
use astro_transits::julian_date::civil_from_days;
use astro_transits::julian_date::date_time_to_jd;
use astro_transits::julian_date::datetime_to_julian_day;
use astro_transits::julian_date::days_from_civil;
use astro_transits::julian_date::iso_string_to_datetime;
use astro_transits::julian_date::julian_day_to_date_time;
use astro_transits::julian_date::julian_day_to_iso_datetime;
use astro_transits::julian_date::julian_day_to_unixtime;
use astro_transits::julian_date::unixtime_to_julian_day;
use astro_transits::julian_date::weekday_from_days;
use astro_transits::julian_date::DateTimeParts;
use astro_transits::julian_date::JulianDayEpoch;
use astro_transits::julian_date::UNIX_EPOCH_JD_SECS;

#[test]
fn unixtime_round_trip() {
    assert_eq!(unixtime_to_julian_day(0), UNIX_EPOCH_JD_SECS);
    // 2440587.5 days of 86400 seconds.
    assert_eq!(UNIX_EPOCH_JD_SECS, 2440587 * 86400 + 43200);
    for ts in [-1_000_000_000, -1, 0, 1, 951_868_800, 4_102_444_800] {
        assert_eq!(julian_day_to_unixtime(unixtime_to_julian_day(ts)), ts);
    }
    assert_eq!(JulianDayEpoch::Days.as_i64(), 2440587);
    assert_eq!(JulianDayEpoch::Hours.as_i64(), 12);
    assert_eq!(JulianDayEpoch::RefYear.as_i64(), 1970);
}

#[test]
fn civil_calendar_known_days() {
    assert_eq!(days_from_civil(1970, 1, 1), 0);
    assert_eq!(days_from_civil(1970, 1, 2), 1);
    assert_eq!(days_from_civil(1969, 12, 31), -1);
    assert_eq!(days_from_civil(2000, 1, 1), 10957);
    assert_eq!(days_from_civil(2000, 3, 1), 11017);
    // A leap day exists in 2000 but not in 1900.
    assert_eq!(days_from_civil(2000, 2, 29) + 1, days_from_civil(2000, 3, 1));
    assert_eq!(days_from_civil(1900, 2, 28) + 1, days_from_civil(1900, 3, 1));
}

#[test]
fn civil_calendar_round_trip() {
    for z in [-719468, -1, 0, 1, 10957, 11017, 59, 60, 2_000_000, 2_932_896] {
        let (y, m, d) = civil_from_days(z);
        assert!((1..=9999).contains(&y) || z == -719468);
        if (1..=9999).contains(&y) {
            assert_eq!(days_from_civil(y, m, d), z);
        }
    }
    assert_eq!(civil_from_days(0), (1970, 1, 1));
    assert_eq!(civil_from_days(10957), (2000, 1, 1));
    assert_eq!(civil_from_days(11016), (2000, 2, 29));
}

#[test]
fn weekdays() {
    // 1970-01-01 was a Thursday: ISO weekday 4.
    assert_eq!(weekday_from_days(0), 4);
    // 2000-01-01 was a Saturday.
    assert_eq!(weekday_from_days(10957), 6);
    // A week later, the same weekday.
    assert_eq!(weekday_from_days(10957 + 7), 6);
    // 1969-12-31, the day before the epoch, was a Wednesday.
    assert_eq!(weekday_from_days(-1), 3);
}

#[test]
fn iso_formatting() {
    assert_eq!(julian_day_to_iso_datetime(UNIX_EPOCH_JD_SECS), "1970-01-01T00:00:00");
    let parts = DateTimeParts { year: 2000, month: 3, day: 1, hour: 12, minute: 30, second: 45 };
    let jd = date_time_to_jd(&parts);
    assert_eq!(julian_day_to_iso_datetime(jd), "2000-03-01T12:30:45");
    assert_eq!(julian_day_to_date_time(jd), parts);
    // One second before a midnight rolls back to the previous day.
    assert_eq!(
        julian_day_to_iso_datetime(UNIX_EPOCH_JD_SECS + 86399),
        "1970-01-01T23:59:59"
    );
    assert_eq!(julian_day_to_iso_datetime(UNIX_EPOCH_JD_SECS - 1), "1969-12-31T23:59:59");
}

#[test]
fn iso_parsing_shapes() {
    let full = iso_string_to_datetime("2022-06-23T18:20:30");
    assert_eq!(
        full,
        DateTimeParts { year: 2022, month: 6, day: 23, hour: 18, minute: 20, second: 30 }
    );
    // A space separator and missing seconds or minutes read as zero.
    assert_eq!(iso_string_to_datetime("2022-06-23 18:20").minute, 20);
    assert_eq!(iso_string_to_datetime("2022-06-23 18:20").second, 0);
    assert_eq!(iso_string_to_datetime("2022-06-23T07").hour, 7);
    let date_only = iso_string_to_datetime("2022-06-23");
    assert_eq!((date_only.hour, date_only.minute, date_only.second), (0, 0, 0));
    // Fractional seconds are ignored.
    assert_eq!(iso_string_to_datetime("2022-06-23T18:20:30.123").second, 30);
}

#[test]
fn iso_parsing_rejects_malformed_input() {
    let epoch = DateTimeParts { year: 1970, month: 1, day: 1, hour: 0, minute: 0, second: 0 };
    assert_eq!(iso_string_to_datetime(""), epoch);
    assert_eq!(iso_string_to_datetime("not a date"), epoch);
    assert_eq!(iso_string_to_datetime("2022/06/23"), epoch);
    // Out-of-range calendar fields are rejected, not wrapped.
    assert_eq!(iso_string_to_datetime("2022-13-01"), epoch);
    assert_eq!(iso_string_to_datetime("2022-00-10"), epoch);
    assert_eq!(iso_string_to_datetime("2022-06-23T25:00:00"), epoch);
}

#[test]
fn parse_format_round_trip() {
    let jd = datetime_to_julian_day("2031-08-05T04:09:59");
    assert_eq!(julian_day_to_iso_datetime(jd), "2031-08-05T04:09:59");
    // A date-only string lands on its midnight.
    let jd0 = datetime_to_julian_day("2031-08-05");
    assert_eq!(jd - jd0, 4 * 3600 + 9 * 60 + 59);
}

#[test]
fn natural_day_subdivisions() {
    // A day running from 06:00 to the next 06:00, observed at noon:
    // a quarter of the natural day has passed.
    let rise = UNIX_EPOCH_JD_SECS + 6 * 3600;
    let i_time = ITime::new(
        UNIX_EPOCH_JD_SECS + 12 * 3600,
        rise - 86400,
        rise,
        UNIX_EPOCH_JD_SECS + 18 * 3600,
        rise + 86400,
        0,
        0,
    );
    assert_eq!(i_time.year, 1970);
    assert_eq!(i_time.day_num, 1);
    assert_eq!(i_time.day_length, 86400);
    assert_eq!(i_time.progress_micro, 250_000);
    assert_eq!(i_time.muhurta, 7);
    assert_eq!(i_time.ghati, 15);
    assert_eq!(i_time.vighati, 30);
    assert_eq!(i_time.lipta, 30);
    assert!(i_time.is_day_time);
    assert!(!i_time.day_before);
    // Thursday in the 1-is-Sunday convention.
    assert_eq!(i_time.week_day_num, 5);
}

#[test]
fn natural_day_before_sunrise() {
    // Observed at 05:00, before the day's rise: the moment belongs to
    // the previous natural day.
    let rise = UNIX_EPOCH_JD_SECS + 86400 + 6 * 3600;
    let i_time = ITime::new(
        UNIX_EPOCH_JD_SECS + 86400 + 5 * 3600,
        rise - 86400,
        rise,
        UNIX_EPOCH_JD_SECS + 86400 + 18 * 3600,
        rise + 86400,
        0,
        0,
    );
    assert!(i_time.day_before);
    assert!(!i_time.is_day_time);
    // 23 hours into a 24-hour natural day.
    assert_eq!(i_time.muhurta, 28);
    assert_eq!(i_time.day_num, 1);
}
