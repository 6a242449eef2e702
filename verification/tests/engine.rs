//! The sampling scanner and its surrounding decisions, exercised on a
//! closed-form altitude model: alt(t) = asin(sin p sin d + cos p cos d
//! cos H) for an observer at latitude p and a body at declination d,
//! with H the hour angle of the sample instant.
use astro_transits::transitions::classify_circumpolar;
use astro_transits::transitions::choose_walk_crossing;
use astro_transits::transitions::find_horizon_flip;
use astro_transits::transitions::is_near_poles;
use astro_transits::transitions::start_jd_geo;
use astro_transits::transitions::transit_midpoint;
use astro_transits::transitions::walk_retry_day;
use astro_transits::transitions::AltTransitionSet;
use astro_transits::transitions::CircumpolarStatus;
use astro_transits::transposed_transitions::calc_mid_point;
use astro_transits::transposed_transitions::calc_transposed_object_transitions;
use astro_transits::transposed_transitions::recalc_min_max_transit_sample;
use astro_transits::transposed_transitions::refinement_times;
use astro_transits::transposed_transitions::scan_points;
use astro_transits::transposed_transitions::scan_points_resampled;
use astro_transits::transposed_transitions::AltitudeSample;
use astro_transits::transposed_transitions::SampleMode;
use astro_transits::transposed_transitions::TransitionFilter;

/// A local midnight on the engine's time scale, far inside every range.
const DAY_START: i64 = 300_000 * 86400;

/// Altitude in micro-degrees of a body at declination `dec_deg` seen
/// from latitude `lat_deg`, `secs_of_day` seconds after local midnight
/// (solar noon falls at 43200).
fn model_altitude(lat_deg: f64, dec_deg: f64, secs_of_day: i64) -> i64 {
    let phi = lat_deg.to_radians();
    let dec = dec_deg.to_radians();
    let hour_angle = (secs_of_day as f64 - 43200.0) / 86400.0 * std::f64::consts::TAU;
    let sin_alt = phi.sin() * dec.sin() + phi.cos() * dec.cos() * hour_angle.cos();
    (sin_alt.asin().to_degrees() * 1_000_000.0).round() as i64
}

fn day_altitudes(lat_deg: f64, dec_deg: f64, step_secs: i64) -> Vec<i64> {
    let count = 86400 / step_secs + 1;
    (0..count).map(|k| model_altitude(lat_deg, dec_deg, k * step_secs)).collect()
}

#[test]
fn polar_latitude_threshold() {
    assert!(!is_near_poles(59_900_000));
    assert!(is_near_poles(60_000_000));
    assert!(is_near_poles(-60_100_000));
    assert!(!is_near_poles(0));
    assert!(!is_near_poles(-59_999_999));
}

#[test]
fn interpolated_crossing_hits_the_zero_of_the_line() {
    // A line from -100 at t=1000 to +200 at t=1300 crosses zero at 1100.
    let first = AltitudeSample::new(SampleMode::Blank, 0, 1000, -100);
    let second = AltitudeSample::new(SampleMode::Blank, 300, 1300, 200);
    assert_eq!(calc_mid_point(&first, &second), 1100);
    // The falling direction: +200 at t=0 to -200 at t=400 crosses at 200.
    let first = AltitudeSample::new(SampleMode::Blank, 0, 0, 200);
    let second = AltitudeSample::new(SampleMode::Blank, 400, 400, -200);
    assert_eq!(calc_mid_point(&first, &second), 200);
}

#[test]
fn mid_latitude_day_is_ordered() {
    // An observer at 51.5 N, longitude 0, with the Sun at a mid-spring
    // declination: rise before local noon, set after it, the upper
    // culmination within one coarse step of noon, and the lower one
    // outside the daylight span.
    let alts = day_altitudes(51.5, 15.0, 300);
    let day = calc_transposed_object_transitions(DAY_START, 300, &alts, 0, TransitionFilter::All);
    let rise = day.rise.expect("the sun rises at this latitude");
    let set = day.set.expect("the sun sets at this latitude");
    let mc = day.mc.expect("mc is always tracked");
    let ic = day.ic.expect("ic is always tracked");
    let noon = DAY_START + 43200;
    assert!(rise.jd < noon);
    assert!(set.jd > noon);
    assert!(rise.jd < mc.jd && mc.jd < set.jd);
    assert!((mc.jd - noon).abs() <= 300);
    assert!(ic.jd < rise.jd || ic.jd > set.jd);
    // The maximum altitude is 90 - |lat - dec| = 53.5 degrees, within
    // one degree.
    assert!((mc.value - 53_500_000).abs() < 1_000_000);
    assert!(mc.value > 0 && ic.value < 0);
}

#[test]
fn scanner_max_is_the_sample_maximum() {
    let alts = day_altitudes(51.5, 15.0, 300);
    let day = calc_transposed_object_transitions(DAY_START, 300, &alts, 0, TransitionFilter::All);
    let mc = day.mc.unwrap();
    let ic = day.ic.unwrap();
    assert_eq!(mc.value, *alts.iter().max().unwrap());
    assert_eq!(ic.value, *alts.iter().min().unwrap());
    // The refinement pass can only improve on the coarse extremum, and
    // lands on the window's best sample.
    let times = refinement_times(mc.jd, 300);
    assert_eq!(times.len() as i64, 2 * 300 / 15 + 1);
    assert_eq!(times[0], mc.jd - 300);
    let window: Vec<i64> =
        times.iter().map(|t| model_altitude(51.5, 15.0, t - DAY_START)).collect();
    let refined = recalc_min_max_transit_sample(mc, 300, &window, true);
    assert!(refined.value >= mc.value);
    let best = *window.iter().max().unwrap();
    assert_eq!(refined.value, best.max(mc.value));
    assert!((refined.jd - (DAY_START + 43200)).abs() <= 15);
}

#[test]
fn always_up_day_has_no_crossing() {
    // Latitude 70 N in local midsummer: the Sun never sets; the scan
    // reports no rise and no set rather than a spurious crossing, and
    // the day classifies as permanently up.
    let alts = day_altitudes(70.0, 23.4, 300);
    assert!(alts.iter().all(|a| *a > 0));
    let day = calc_transposed_object_transitions(DAY_START, 300, &alts, 0, TransitionFilter::All);
    assert!(day.rise.is_none());
    assert!(day.set.is_none());
    let set = day.to_alt_transition_set();
    assert!(set.min > 0);
    assert!(set.is_up());
    assert!(!set.is_down());
    assert_eq!(set.start_mode(), 1);
    assert!(matches!(classify_circumpolar(set.min, set.max), CircumpolarStatus::AlwaysUp));
}

#[test]
fn always_down_day_has_no_crossing() {
    // The polar night: latitude 80 N with the Sun far south.
    let alts = day_altitudes(80.0, -23.4, 300);
    assert!(alts.iter().all(|a| *a < 0));
    let day = calc_transposed_object_transitions(DAY_START, 300, &alts, 0, TransitionFilter::All);
    assert!(day.rise.is_none());
    assert!(day.set.is_none());
    let set = day.to_alt_transition_set();
    assert!(set.is_down());
    assert_eq!(set.start_mode(), -1);
    assert!(matches!(classify_circumpolar(set.min, set.max), CircumpolarStatus::AlwaysDown));
}

#[test]
fn scanner_is_deterministic() {
    let alts = day_altitudes(51.5, 15.0, 300);
    let once = calc_transposed_object_transitions(DAY_START, 300, &alts, 0, TransitionFilter::All);
    let twice = calc_transposed_object_transitions(DAY_START, 300, &alts, 0, TransitionFilter::All);
    assert_eq!(once, twice);
    let resampled_speeds: Vec<(i64, i64)> = (0..alts.len()).map(|_| (13_200_000, 0)).collect();
    let pts1 = scan_points_resampled(DAY_START, 300, 100_000_000, 2_000_000, &resampled_speeds);
    let pts2 = scan_points_resampled(DAY_START, 300, 100_000_000, 2_000_000, &resampled_speeds);
    assert_eq!(pts1, pts2);
}

#[test]
fn disc_correction_shifts_the_crossings() {
    // The disc correction raises the rise test and lowers the set
    // test: the rise fires as the altitude climbs through -d, the set
    // as it falls through +d, both ahead of the centre crossing.
    let alts = day_altitudes(51.5, 15.0, 300);
    let centre = calc_transposed_object_transitions(DAY_START, 300, &alts, 0, TransitionFilter::All);
    let limb =
        calc_transposed_object_transitions(DAY_START, 300, &alts, 266_000, TransitionFilter::All);
    assert!(limb.rise.unwrap().jd < centre.rise.unwrap().jd);
    assert!(limb.set.unwrap().jd < centre.set.unwrap().jd);
    // The events stay within a step of the centre crossings.
    assert!(centre.rise.unwrap().jd - limb.rise.unwrap().jd <= 300);
    assert!(centre.set.unwrap().jd - limb.set.unwrap().jd <= 300);
}

#[test]
fn single_event_filters_stop_at_the_first_crossing() {
    // A day with two rises (an artificial double wave): the rise-only
    // filter reports the first crossing, the full filter the last.
    let mut alts: Vec<i64> = Vec::new();
    for k in 0..=288 {
        let t = (k as f64 + 0.5) / 288.0 * 2.0 * std::f64::consts::TAU;
        alts.push((t.sin() * 10_000_000.0) as i64);
    }
    let rise_only =
        calc_transposed_object_transitions(DAY_START, 300, &alts, 0, TransitionFilter::Rise);
    let all = calc_transposed_object_transitions(DAY_START, 300, &alts, 0, TransitionFilter::All);
    let first = rise_only.rise.unwrap().jd;
    let last = all.rise.unwrap().jd;
    assert!(first < last);
    assert!(rise_only.set.is_none());
    assert!(rise_only.mc.is_none());
    assert!(rise_only.ic.is_none());
}

#[test]
fn scan_points_follow_the_proper_motion() {
    let pts = scan_points(DAY_START, 300, 100_000_000, 2_000_000, 13_200_000, 0);
    assert_eq!(pts.len() as i64, 86400 / 300 + 1);
    assert_eq!(pts[0].jd, DAY_START);
    assert_eq!(pts[0].lng, 100_000_000);
    assert_eq!(pts[0].lat, 2_000_000);
    // Half a day in, the longitude has advanced by half the daily speed.
    let mid = &pts[144];
    assert_eq!(mid.jd, DAY_START + 43200);
    assert_eq!(mid.lng, 100_000_000 + 13_200_000 / 2);
    assert_eq!(mid.lat, 2_000_000);
    // A zero speed leaves the coordinate untouched on every sample.
    let still = scan_points(DAY_START, 300, 100_000_000, 2_000_000, 0, 0);
    assert!(still.iter().all(|p| p.lng == 100_000_000 && p.lat == 2_000_000));
}

#[test]
fn horizon_day_walk_finds_the_flip() {
    // Midsummer at a high latitude: the noon altitude sinks day by day
    // until the Sun finally sets. The walk reports the first day on
    // which the sign condition fails.
    let alts: Vec<i64> = (0..184).map(|k| 3_400_000 - 100_000 * k as i64).collect();
    assert_eq!(find_horizon_flip(false, &alts), Some(34));
    // A walk that never flips within the bound is an explicit failure.
    let stuck: Vec<i64> = (0..184).map(|_| 5_000_000).collect();
    assert_eq!(find_horizon_flip(false, &stuck), None);
    // The waiting-for-rise direction flips on the first non-negative
    // altitude.
    let dawn: Vec<i64> = (0..184).map(|k| -1_000_000 + 250_000 * k as i64).collect();
    assert_eq!(find_horizon_flip(true, &dawn), Some(4));
}

#[test]
fn walk_crossing_choices() {
    let base = AltTransitionSet {
        min: -1,
        rise: Some(10),
        mc: Some(20),
        set: Some(30),
        ic: Some(40),
        max: 1,
    };
    assert_eq!(choose_walk_crossing(&base, true, false), Some(30));
    assert_eq!(choose_walk_crossing(&base, false, true), Some(30));
    assert_eq!(choose_walk_crossing(&base, true, true), Some(10));
    assert_eq!(choose_walk_crossing(&base, false, false), Some(10));
    let day = 400_000 * 86400;
    assert_eq!(walk_retry_day(day, true, true, false), day + 86400);
    assert_eq!(walk_retry_day(day, true, true, true), day - 86400);
    assert_eq!(walk_retry_day(day, false, true, false), day - 86400);
}

#[test]
fn local_day_anchor() {
    let epoch = astro_transits::julian_date::UNIX_EPOCH_JD_SECS;
    let noon = epoch + 43200;
    // Longitude zero: the anchor is the UTC midnight of the same day.
    assert_eq!(start_jd_geo(noon, 0), epoch);
    // Ninety degrees east: local midnight falls six hours earlier.
    assert_eq!(start_jd_geo(noon, 90_000_000), epoch - 21600);
    // Ninety degrees west: six hours later.
    assert_eq!(start_jd_geo(noon, -90_000_000), epoch + 21600);
    // The anchor never strays more than a day from the instant.
    for lng in [-180_000_000, -37_500_000, 0, 14_000_000, 179_999_999] {
        for off in [0, 20_000, 43_199, 86_399] {
            let r = start_jd_geo(epoch + off, lng);
            assert!((epoch + off - r).abs() <= 86400);
        }
    }
}

#[test]
fn meridian_midpoint() {
    assert_eq!(transit_midpoint(100, 300), 200);
    assert_eq!(transit_midpoint(0, 1), 0);
    let a = 500_000 * 86400;
    assert_eq!(transit_midpoint(a, a + 43200), a + 21600);
}

#[test]
fn sample_labels_and_placeholders() {
    let mut s = AltitudeSample::basic(SampleMode::Rise);
    assert_eq!(s.jd, 0);
    assert_eq!(s.value, 0);
    s.set_mode(SampleMode::Mc);
    assert!(matches!(s.mode, SampleMode::Mc));
    assert_eq!(AltitudeSample::basic_low(SampleMode::Mc).value, -90_000_000);
    assert_eq!(AltitudeSample::basic_high(SampleMode::Ic).value, 90_000_000);
    let kn = AltitudeSample::new(SampleMode::Setting, 0, 1234, 0).to_key_num();
    assert_eq!(kn.key, "set");
    assert_eq!(kn.value, 1234);
    // A placeholder renders as an empty date string.
    assert_eq!(AltitudeSample::basic(SampleMode::Rise).datetime_string(), "");
}

#[test]
fn filter_matches() {
    assert!(TransitionFilter::Rise.match_rise());
    assert!(!TransitionFilter::Rise.match_set());
    assert!(TransitionFilter::RiseSet.match_rise() && TransitionFilter::RiseSet.match_set());
    assert!(!TransitionFilter::RiseSet.match_mc());
    assert!(TransitionFilter::McIc.match_mc() && TransitionFilter::McIc.match_ic());
    assert!(TransitionFilter::All.match_rise() && TransitionFilter::All.match_ic());
    assert!(TransitionFilter::Ic.match_ic() && !TransitionFilter::Ic.match_mc());
    assert!(TransitionFilter::Mc.match_mc() && !TransitionFilter::Mc.match_rise());
    assert!(TransitionFilter::Setting.match_set() && !TransitionFilter::Setting.match_rise());
}

#[test]
fn day_flattens_to_samples_in_event_order() {
    let alts = day_altitudes(51.5, 15.0, 300);
    let day = calc_transposed_object_transitions(DAY_START, 300, &alts, 0, TransitionFilter::All);
    let samples = day.to_samples();
    assert_eq!(samples.len(), 4);
    assert!(matches!(samples[0].mode, SampleMode::Rise));
    assert!(matches!(samples[1].mode, SampleMode::Setting));
    assert!(matches!(samples[2].mode, SampleMode::Mc));
    assert!(matches!(samples[3].mode, SampleMode::Ic));
    let ts = day.to_transition_set();
    assert_eq!(ts.rise, day.rise.map(|s| s.jd));
    assert_eq!(ts.ic, day.ic.map(|s| s.jd));
}

#[test]
fn single_sample_day_has_extrema_only() {
    let alts = vec![5_000_000];
    let day = calc_transposed_object_transitions(DAY_START, 300, &alts, 0, TransitionFilter::All);
    assert!(day.rise.is_none() && day.set.is_none());
    let mc = day.mc.unwrap();
    let ic = day.ic.unwrap();
    assert_eq!(mc.jd, DAY_START);
    assert_eq!(ic.jd, DAY_START);
    assert_eq!(mc.value, 5_000_000);
    assert_eq!(ic.value, 5_000_000);
}

#[test]
fn refinement_keeps_the_coarse_sample_when_nothing_beats_it() {
    let coarse = AltitudeSample::new(SampleMode::Mc, 43200, DAY_START + 43200, 53_000_000);
    let window: Vec<i64> = (0..41).map(|_| 50_000_000).collect();
    let refined = recalc_min_max_transit_sample(coarse, 300, &window, true);
    assert_eq!(refined, coarse);
    // For the minimum the same window wins, on its first sample.
    let refined = recalc_min_max_transit_sample(coarse, 300, &window, false);
    assert_eq!(refined.value, 50_000_000);
    assert_eq!(refined.jd, DAY_START + 43200 - 300);
    assert!(matches!(refined.mode, SampleMode::Ic));
}

#[test]
fn equal_bracket_times_interpolate_to_the_later_sample() {
    let first = AltitudeSample::new(SampleMode::Blank, 0, 777, -5);
    let second = AltitudeSample::new(SampleMode::Blank, 0, 777, 5);
    assert_eq!(calc_mid_point(&first, &second), 777);
}

#[test]
fn set_only_filter_stops_at_the_first_setting() {
    let mut alts: Vec<i64> = Vec::new();
    for k in 0..=288 {
        let t = (k as f64 + 0.5) / 288.0 * 2.0 * std::f64::consts::TAU;
        // Two falls per day: the cosine wave starts positive.
        alts.push((t.cos() * 10_000_000.0) as i64);
    }
    let set_only =
        calc_transposed_object_transitions(DAY_START, 300, &alts, 0, TransitionFilter::Setting);
    let all = calc_transposed_object_transitions(DAY_START, 300, &alts, 0, TransitionFilter::All);
    assert!(set_only.set.unwrap().jd < all.set.unwrap().jd);
    assert!(set_only.rise.is_none());
}

#[test]
fn resampled_speeds_bend_the_schedule() {
    let mut speeds: Vec<(i64, i64)> = Vec::new();
    for k in 0..289 {
        speeds.push(if k < 144 { (0, 0) } else { (13_200_000, 0) });
    }
    let pts = scan_points_resampled(DAY_START, 300, 100_000_000, 0, &speeds);
    // Early samples sit still, later ones move with the fresh speed.
    assert_eq!(pts[100].lng, 100_000_000);
    assert_eq!(pts[144].lng, 100_000_000 + 13_200_000 / 2);
    assert_eq!(pts[288].lng, 100_000_000 + 13_200_000);
}
