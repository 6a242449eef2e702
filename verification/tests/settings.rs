//! Key matching, result-set shaping, and the progression arithmetic.
use astro_transits::ayanamshas::all_ayanamsha_keys;
use astro_transits::ayanamshas::Ayanamsha;
use astro_transits::converters::body_keys_str_to_keys;
use astro_transits::converters::body_keys_str_to_keys_or;
use astro_transits::converters::loc_string_to_geo;
use astro_transits::converters::to_str_refs;
use astro_transits::general::KeyNumValue;
use astro_transits::general::KeyNumValueSet;
use astro_transits::geo_pos::GeoPos;
use astro_transits::graha_values::Bodies;
use astro_transits::help::endpoint_help;
use astro_transits::julian_date::UNIX_EPOCH_JD_SECS;
use astro_transits::math_funcs::adjust_lng_by_body_key;
use astro_transits::math_funcs::calc_opposite;
use astro_transits::math_funcs::calc_progress_day_jds_by_year;
use astro_transits::math_funcs::get_year_length;
use astro_transits::math_funcs::subtract_360;
use astro_transits::math_funcs::to_progression_jd;
use astro_transits::minmax::max_value;
use astro_transits::minmax::min_value;
use astro_transits::traits::FromKey;
use astro_transits::traits::ToKey;
use astro_transits::transitions::assemble_extended;
use astro_transits::transitions::horizon_walk_schedule;
use astro_transits::transitions::needs_horizon_walk;
use astro_transits::transitions::AltTransitionSet;
use astro_transits::transitions::ExtendedTransitionSet;
use astro_transits::transitions::to_indian_time_with_transitions;
use astro_transits::transitions::AltTransitionValueSet;
use astro_transits::transitions::TransitionGroup;
use astro_transits::transitions::TransitionParams;
use astro_transits::transitions::TransitionSet;
use astro_transits::varga_values::VargaItem;

#[test]
fn ayanamsha_keys() {
    assert!(matches!(Ayanamsha::from_key("tc"), Ayanamsha::TrueCitra));
    assert!(matches!(Ayanamsha::from_key("true_citra"), Ayanamsha::TrueCitra));
    assert!(matches!(Ayanamsha::from_key("TRUE_CITRA"), Ayanamsha::TrueCitra));
    assert!(matches!(Ayanamsha::from_key("chitra"), Ayanamsha::TrueCitra));
    assert!(matches!(Ayanamsha::from_key("lahiri"), Ayanamsha::Lahiri));
    assert!(matches!(Ayanamsha::from_key("kr"), Ayanamsha::Krishnamurti));
    assert!(matches!(Ayanamsha::from_key("pushya"), Ayanamsha::TruePushya));
    assert!(matches!(Ayanamsha::from_key("nonsense"), Ayanamsha::Tropical));
    assert!(matches!(Ayanamsha::from_key(""), Ayanamsha::Tropical));
    assert_eq!(Ayanamsha::TrueCitra.as_string(), "true_citra");
    assert_eq!(Ayanamsha::Tropical.as_string(), "tropical");
    assert_eq!(Ayanamsha::GalcentCochrane.as_string(), "galcent_cochrane");
    assert_eq!(Ayanamsha::Tropical.as_i32(), 0);
    assert_eq!(Ayanamsha::TrueCitra.as_i32(), 27);
    assert_eq!(Ayanamsha::Lahiri.as_i32(), 1);
    assert_eq!(Ayanamsha::ValensMoon.as_i32(), 42);
    let keys = all_ayanamsha_keys();
    assert_eq!(keys.len(), 17);
    assert_eq!(keys[0], "true_citra");
    assert_eq!(keys[16], "jnbhasin");
}

#[test]
fn body_keys() {
    assert!(matches!(Bodies::from_key("su"), Bodies::Sun));
    assert!(matches!(Bodies::from_key("MO"), Bodies::Moon));
    assert!(matches!(Bodies::from_key("ke"), Bodies::TrueNode));
    assert!(matches!(Bodies::from_key("ra"), Bodies::TrueNode));
    assert!(matches!(Bodies::from_key("zz"), Bodies::Earth));
    assert_eq!(Bodies::Sun.to_key(), "su");
    assert_eq!(Bodies::SouthNode.to_key(), "sn");
    assert!(Bodies::Sun.has_disc_correction());
    assert!(Bodies::Moon.has_disc_correction());
    assert!(!Bodies::Mars.has_disc_correction());
    assert!(Bodies::Moon.resamples_speed());
    assert!(!Bodies::Sun.resamples_speed());
}

#[test]
fn body_key_lists() {
    let keys = body_keys_str_to_keys("su,mo,jupiter,ve".to_owned());
    assert_eq!(keys, vec!["su", "mo", "ve"]);
    let keys = body_keys_str_to_keys("sa".to_owned());
    assert_eq!(keys, vec!["sa"]);
    assert!(body_keys_str_to_keys("".to_owned()).is_empty());
    // The ascendant pseudo-key is dropped; an empty list falls back to
    // the defaults.
    let keys = body_keys_str_to_keys_or("as,su".to_owned(), vec!["mo"]);
    assert_eq!(keys, vec!["su"]);
    let keys = body_keys_str_to_keys_or("".to_owned(), vec!["su", "mo"]);
    assert_eq!(keys, vec!["su", "mo"]);
    let owned = vec!["su".to_owned(), "mo".to_owned()];
    let refs = to_str_refs(&owned);
    assert_eq!(refs, vec!["su", "mo"]);
}

#[test]
fn coordinate_strings() {
    let geo = loc_string_to_geo("45.336,13.278,50").unwrap();
    assert_eq!(geo, GeoPos::new(45_336_000, 13_278_000, 50));
    let geo = loc_string_to_geo("-33.8,151.2").unwrap();
    assert_eq!(geo.lat, -33_800_000);
    assert_eq!(geo.lng, 151_200_000);
    assert_eq!(geo.alt, 0);
    assert_eq!(loc_string_to_geo("51.5,0").unwrap().lng, 0);
    assert!(loc_string_to_geo("51.5").is_none());
    assert!(loc_string_to_geo("abc,def").is_none());
    assert!(loc_string_to_geo("").is_none());
    assert_eq!(GeoPos::simple(1, 2).alt, 10);
    assert_eq!(GeoPos::zero(), GeoPos::new(0, 0, 10));
}

#[test]
fn circle_arithmetic() {
    assert_eq!(calc_opposite(30_000_000), 210_000_000);
    assert_eq!(calc_opposite(300_000_000), 120_000_000);
    assert_eq!(adjust_lng_by_body_key("ke", 10_000_000), 190_000_000);
    assert_eq!(adjust_lng_by_body_key("su", 10_000_000), 10_000_000);
    assert_eq!(subtract_360(10_000_000, 30_000_000), 340_000_000);
    assert_eq!(subtract_360(200_000_000, 50_000_000), 150_000_000);
}

#[test]
fn progression_scale() {
    assert_eq!(get_year_length("sidereal"), 365_256_366);
    assert_eq!(get_year_length("anomalistic"), 365_259_636);
    assert_eq!(get_year_length("tropical"), 365_242_199);
    assert_eq!(get_year_length("anything"), 365_242_199);
    // One tropical year after the source maps to one day of progression.
    let source = UNIX_EPOCH_JD_SECS;
    assert_eq!(to_progression_jd(source, source, "tropical"), source);
    assert_eq!(to_progression_jd(source, source + 31_556_926, "tropical"), source + 86400);
    let items = calc_progress_day_jds_by_year(source, 2000, 2, 2);
    assert_eq!(items.len(), 4);
    assert_eq!(items[1].0 - items[0].0, 43200);
    assert_eq!(items[1].1 - items[0].1, 31_556_925);
}

#[test]
fn extremes_of_lists() {
    assert_eq!(max_value(&vec![3, -5, 9, 9, 2]), 9);
    assert_eq!(min_value(&vec![3, -5, 9, -5, 2]), -5);
    assert_eq!(max_value(&vec![]), 0);
    assert_eq!(min_value(&vec![-7]), -7);
}

#[test]
fn transit_set_flattening() {
    let set = AltTransitionSet {
        min: -5,
        rise: Some(100),
        mc: Some(200),
        set: Some(300),
        ic: None,
        max: 50,
    };
    let nums = set.to_key_nums();
    let pairs: Vec<(&str, i64)> = nums.iter().map(|k| (k.key.as_str(), k.value)).collect();
    assert_eq!(
        pairs,
        vec![("min", -5), ("rise", 100), ("mc", 200), ("set", 300), ("ic", 0), ("max", 50)]
    );
    assert_eq!(set.period(), Some(200));
    let open_ended = TransitionSet { rise: None, mc: Some(1), set: Some(2), ic: None };
    assert_eq!(open_ended.period(), None);
    let ext = ExtendedTransitionSet {
        prev_set: Some(10),
        rise: None,
        mc: Some(20),
        set: None,
        ic: Some(30),
        next_rise: Some(40),
        min: 5,
        max: 9,
    };
    // A permanently up day labels its brackets as the neighbouring
    // rise and set.
    let nums = ext.to_key_nums();
    assert_eq!(nums[0].key, "prev_rise");
    assert_eq!(nums[5].key, "next_set");
    assert!(ext.is_up());
    assert_eq!(ext.start_mode(), 1);
}

#[test]
fn iso_value_sets() {
    let set = AltTransitionSet {
        min: -5,
        rise: Some(UNIX_EPOCH_JD_SECS),
        mc: None,
        set: Some(UNIX_EPOCH_JD_SECS + 3600),
        ic: Some(0),
        max: 50,
    };
    let iso = set.as_iso_datetime();
    assert_eq!(iso.rise, "1970-01-01T00:00:00");
    assert_eq!(iso.set, "1970-01-01T01:00:00");
    // An absent event, or one outside the civil calendar, renders empty.
    assert_eq!(iso.mc, "");
    assert_eq!(iso.ic, "");
    match set.to_value_set(false) {
        AltTransitionValueSet::JdValues(v) => assert_eq!(v.rise, Some(UNIX_EPOCH_JD_SECS)),
        _ => panic!("expected raw instants"),
    }
    match set.to_value_set(true) {
        AltTransitionValueSet::IsoValues(v) => assert_eq!(v.rise, "1970-01-01T00:00:00"),
        _ => panic!("expected ISO strings"),
    }
    let kn = KeyNumValue::new("rise", UNIX_EPOCH_JD_SECS).as_iso_string();
    assert_eq!(kn.key, "rise");
    assert_eq!(kn.value, "1970-01-01T00:00:00");
}

#[test]
fn flexi_values_drop_absent_events() {
    let items = vec![
        KeyNumValue::new("rise", UNIX_EPOCH_JD_SECS),
        KeyNumValue::new("set", 0),
        KeyNumValue::new("max", 53_500_000),
    ];
    let set = KeyNumValueSet::new("su", items);
    let flexi = set.as_flexi_values(true);
    assert_eq!(flexi.key, "su");
    // The zero-valued set is dropped; the extreme stays numeric.
    assert_eq!(flexi.items.len(), 2);
    let strings = set.as_iso_strings();
    assert_eq!(strings.items.len(), 3);
    assert_eq!(strings.items[0].value, "1970-01-01T00:00:00");
}

#[test]
fn indian_time_from_transit_sets() {
    let day0 = UNIX_EPOCH_JD_SECS;
    let current = ExtendedTransitionSet {
        prev_set: Some(day0 - 6 * 3600),
        rise: Some(day0 + 6 * 3600),
        mc: Some(day0 + 12 * 3600),
        set: Some(day0 + 18 * 3600),
        ic: Some(day0 - 12 * 3600),
        next_rise: Some(day0 + 30 * 3600),
        min: -40_000_000,
        max: 50_000_000,
    };
    let prev = AltTransitionSet {
        min: -40_000_000,
        rise: Some(day0 - 18 * 3600),
        mc: Some(day0 - 12 * 3600),
        set: Some(day0 - 6 * 3600),
        ic: Some(day0 - 36 * 3600),
        max: 50_000_000,
    };
    let next = AltTransitionSet {
        min: -40_000_000,
        rise: Some(day0 + 30 * 3600),
        mc: Some(day0 + 36 * 3600),
        set: Some(day0 + 42 * 3600),
        ic: Some(day0 + 24 * 3600),
        max: 50_000_000,
    };
    let (i_time, prev_v, cur_v, next_v, offset) =
        to_indian_time_with_transitions(day0 + 12 * 3600, &current, &prev, &next, 0, None, false);
    assert_eq!(offset, 0);
    // Noon sits a quarter of the way through the rise-to-rise day.
    assert_eq!(i_time.progress_micro, 250_000);
    assert!(i_time.is_day_time);
    assert!(matches!(prev_v, AltTransitionValueSet::JdValues(_)));
    assert!(matches!(cur_v, AltTransitionValueSet::ExtendedJdValues(_)));
    assert!(matches!(next_v, AltTransitionValueSet::JdValues(_)));
    // The longitude's time-zone equivalent: four minutes per degree.
    let (_, _, _, _, offset) =
        to_indian_time_with_transitions(day0 + 12 * 3600, &current, &prev, &next, 90_000_000, None, true);
    assert_eq!(offset, 21600);
}

#[test]
fn native_finder_flags() {
    assert_eq!(TransitionParams::Rise.as_i32(), 1);
    assert_eq!(TransitionParams::Setting.as_i32(), 2);
    assert_eq!(TransitionParams::center_disc_rising(), 896);
    assert_eq!(TransitionParams::center_disc_rising_rise(), 897);
    assert_eq!(TransitionParams::center_disc_rising_set(), 898);
    assert_eq!(TransitionParams::rise_normal(), 16385);
    assert_eq!(TransitionParams::set_normal(), 16386);
    assert_eq!(TransitionParams::normal(), 640);
    assert_eq!(TransitionParams::bottom_disc_rising(), 8832);
    assert_eq!(TransitionParams::mc(), 516);
    assert_eq!(TransitionParams::ic(), 520);
}

#[test]
fn help_and_varga() {
    let help = endpoint_help();
    assert_eq!(help.len(), 8);
    assert!(help.contains_key("/positions"));
    assert!(help.contains_key("/transposed-transitions"));
    let routes = help.get("/transitions").unwrap();
    assert!(routes.contains_key("bodies"));
    let item = VargaItem::new(9, false, true, true, true);
    assert_eq!(item.num, 9);
    assert!(item.parivritti && !item.parashari);
}

#[test]
fn extended_assembly_and_walk_need() {
    let base = AltTransitionSet {
        min: -3,
        rise: Some(11),
        mc: Some(22),
        set: Some(33),
        ic: Some(44),
        max: 5,
    };
    let ext = assemble_extended(&base, Some(7), Some(55));
    assert_eq!(ext.prev_set, Some(7));
    assert_eq!(ext.next_rise, Some(55));
    assert_eq!(ext.rise, Some(11));
    assert_eq!(ext.min, -3);
    let whole = TransitionSet { rise: Some(1), mc: None, set: Some(2), ic: None };
    assert!(!needs_horizon_walk(&whole));
    let broken = TransitionSet { rise: None, mc: None, set: Some(2), ic: None };
    assert!(needs_horizon_walk(&broken));
}

#[test]
fn walk_schedule_steps_by_whole_days() {
    let jd = 400_000 * 86400;
    let fwd = horizon_walk_schedule(jd, true);
    assert_eq!(fwd.len(), 184);
    assert_eq!(fwd[0], jd);
    assert_eq!(fwd[1], jd + 86400);
    assert_eq!(fwd[183], jd + 183 * 86400);
    let back = horizon_walk_schedule(jd, false);
    assert_eq!(back[183], jd - 183 * 86400);
}
