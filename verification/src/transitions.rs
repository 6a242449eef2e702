//! Transit result sets, circumpolar classification, latitude routing,
//! local-day anchoring, and the decisions of the fast locator and of the
//! circumpolar day-walk.
//!
//! The native root-finder of the fast locator and the ephemeris behind
//! the day-walk are external collaborators: the functions here take
//! their plain integer results and make every decision on them, and no
//! event is ever encoded as a magic number — an absent event is None.
use vstd::prelude::*;

use crate::general::KeyNumValue;
use crate::julian_date::MAX_CIVIL_JD_SECS;
use crate::julian_date::MIN_CIVIL_JD_SECS;
use crate::julian_date::spec_civil_fields_in_range;
use crate::julian_date::spec_iso_datetime_chars;
use crate::julian_date::spec_jd_to_date_time;
use crate::transposed_transitions::MAX_TIME;
use crate::units::DEG;
use crate::units::HALF_DAY_SECS;
use crate::units::SECS_PER_DAY;

verus! {

/// Latitude (micro-degrees) at or beyond which the fast native locator is
/// not trusted and the sampling scanner is used instead.
pub const POLAR_LAT: i64 = 60_000_000;

/// Bound on the circumpolar day-walk: about half a year of days to
/// either side, after which the search reports an explicit failure.
pub const MAX_WALK_DAYS: usize = 184;

/// True iff the latitude lies in the polar routing band: at or above 60
/// degrees north, or at or below 60 degrees south.
pub fn is_near_poles(lat: i64) -> (r: bool)
    ensures
        r == (lat >= POLAR_LAT || lat <= -POLAR_LAT),
{
    lat >= POLAR_LAT || lat <= -POLAR_LAT
}

/// An optional event time widened for specifications.
pub open spec fn opt_time(o: Option<i64>) -> Option<int> {
    match o {
        Some(t) => Some(t as int),
        None => None,
    }
}

/// The wire value of an optional event time: the instant itself, or
/// zero where there is no event, as the surrounding report layer
/// expects.
pub open spec fn spec_event_value(o: Option<i64>) -> int {
    match o {
        Some(t) => t as int,
        None => 0,
    }
}

/// Turn an optional event time into its wire value.
fn event_value(o: Option<i64>) -> (r: i64)
    ensures
        r == spec_event_value(o),
{
    match o {
        Some(t) => t,
        None => 0,
    }
}

/// How a day classifies against the horizon, decided from its extreme
/// altitudes. One consistent rule is used everywhere: a day is
/// permanently up iff its minimum never drops below the horizon and its
/// maximum is above it, permanently down iff its maximum never tops the
/// horizon and its minimum is below it.
#[derive(Debug, Copy, Clone, PartialEq, Eq, Structural)]
pub enum CircumpolarStatus {
    AlwaysUp,
    AlwaysDown,
    Crossing,
}

/// Classify a day from its minimum and maximum altitude
/// (micro-degrees).
pub fn classify_circumpolar(min: i64, max: i64) -> (r: CircumpolarStatus)
    ensures
        r is AlwaysUp <==> (min >= 0 && max > 0),
        r is AlwaysDown <==> (max <= 0 && min < 0),
        r is Crossing <==> !(min >= 0 && max > 0) && !(max <= 0 && min < 0),
{
    if min >= 0 && max > 0 {
        CircumpolarStatus::AlwaysUp
    } else if max <= 0 && min < 0 {
        CircumpolarStatus::AlwaysDown
    } else {
        CircumpolarStatus::Crossing
    }
}

/// The four transit instants of one day. An event the locator or
/// scanner did not find is None, never a sentinel time.
#[derive(Debug, Copy, Clone, PartialEq, Eq, Structural)]
pub struct TransitionSet {
    pub rise: Option<i64>,
    pub mc: Option<i64>,
    pub set: Option<i64>,
    pub ic: Option<i64>,
}

/// The four transit instants plus the day's extreme altitudes.
#[derive(Debug, Copy, Clone, PartialEq, Eq, Structural)]
pub struct AltTransitionSet {
    pub min: i64,
    pub rise: Option<i64>,
    pub mc: Option<i64>,
    pub set: Option<i64>,
    pub ic: Option<i64>,
    pub max: i64,
}

/// The day's transits extended by the bracketing events of the
/// neighbouring days: the set before the rise and the rise after the
/// set, as wanted for the Sun and Moon.
#[derive(Debug, Copy, Clone, PartialEq, Eq, Structural)]
pub struct ExtendedTransitionSet {
    pub prev_set: Option<i64>,
    pub rise: Option<i64>,
    pub mc: Option<i64>,
    pub set: Option<i64>,
    pub ic: Option<i64>,
    pub next_rise: Option<i64>,
    pub min: i64,
    pub max: i64,
}

/// Result groups that span a day: they expose the day's length above
/// the horizon and flatten to labelled numbers.
pub trait TransitionGroup {
    /// The abstract period: the span from rise to set, where both
    /// exist.
    spec fn spec_period(&self) -> Option<int>;

    /// The group's instants lie on the representable time scale.
    spec fn times_in_range(&self) -> bool;

    /// Whether a flattened value list is the right one for this group.
    spec fn key_nums_ok(&self, s: Seq<KeyNumValue>) -> bool;

    /// The span from rise to set, None when either end is missing.
    fn period(&self) -> (r: Option<i64>)
        requires
            self.times_in_range(),
        ensures
            opt_time(r) == self.spec_period(),
    ;

    /// The group flattened to labelled numbers, an absent event
    /// carrying the wire value zero.
    fn to_key_nums(&self) -> (r: Vec<KeyNumValue>)
        ensures
            self.key_nums_ok(r@),
    ;
}

/// The period of two optional instants: the distance from rise to set
/// when both are present.
pub open spec fn spec_period_of(rise: Option<i64>, set_t: Option<i64>) -> Option<int> {
    match (rise, set_t) {
        (Some(r), Some(s)) => Some(s - r),
        _ => None,
    }
}

impl AltTransitionSet {
    /// The day never leaves the sky within its scan: some crossing is
    /// missing and the minimum altitude stays at or above the horizon.
    pub fn is_up(&self) -> (r: bool)
        ensures
            r == ((self.rise is None || self.set is None) && self.min >= 0),
    {
        (self.rise.is_none() || self.set.is_none()) && self.min >= 0
    }

    /// The day never reaches the sky within its scan: some crossing is
    /// missing and the maximum altitude stays at or below the horizon.
    pub fn is_down(&self) -> (r: bool)
        ensures
            r == ((self.rise is None || self.set is None) && self.max <= 0),
    {
        (self.rise.is_none() || self.set.is_none()) && self.max <= 0
    }

    /// 1 for a permanently up day, -1 for a permanently down one, 0
    /// for a day with crossings.
    pub fn start_mode(&self) -> (r: i8)
        ensures
            ((self.rise is None || self.set is None) && self.min >= 0) ==> r == 1,
            (!((self.rise is None || self.set is None) && self.min >= 0) && (self.rise is None
                || self.set is None) && self.max <= 0) ==> r == -1,
            (!((self.rise is None || self.set is None) && self.min >= 0) && !((self.rise is None
                || self.set is None) && self.max <= 0)) ==> r == 0,
    {
        if self.is_up() {
            1
        } else if self.is_down() {
            -1
        } else {
            0
        }
    }
}

impl TransitionGroup for AltTransitionSet {
    open spec fn spec_period(&self) -> Option<int> {
        spec_period_of(self.rise, self.set)
    }

    open spec fn times_in_range(&self) -> bool {
        &&& (self.rise matches Some(t) ==> -MAX_TIME <= t <= MAX_TIME)
        &&& (self.set matches Some(t) ==> -MAX_TIME <= t <= MAX_TIME)
    }

    open spec fn key_nums_ok(&self, s: Seq<KeyNumValue>) -> bool {
        &&& s.len() == 6
        &&& s[0].key@ == "min"@ && s[0].value == self.min
        &&& s[1].key@ == "rise"@ && s[1].value == spec_event_value(self.rise)
        &&& s[2].key@ == "mc"@ && s[2].value == spec_event_value(self.mc)
        &&& s[3].key@ == "set"@ && s[3].value == spec_event_value(self.set)
        &&& s[4].key@ == "ic"@ && s[4].value == spec_event_value(self.ic)
        &&& s[5].key@ == "max"@ && s[5].value == self.max
    }

    fn period(&self) -> (r: Option<i64>) {
        match (self.rise, self.set) {
            (Some(rise), Some(set_t)) => Some(set_t - rise),
            _ => None,
        }
    }

    fn to_key_nums(&self) -> (r: Vec<KeyNumValue>) {
        let mut r: Vec<KeyNumValue> = Vec::new();
        r.push(KeyNumValue::new("min", self.min));
        r.push(KeyNumValue::new("rise", event_value(self.rise)));
        r.push(KeyNumValue::new("mc", event_value(self.mc)));
        r.push(KeyNumValue::new("set", event_value(self.set)));
        r.push(KeyNumValue::new("ic", event_value(self.ic)));
        r.push(KeyNumValue::new("max", self.max));
        r
    }
}

impl ExtendedTransitionSet {
    /// As AltTransitionSet::is_up, for the extended set.
    pub fn is_up(&self) -> (r: bool)
        ensures
            r == ((self.rise is None || self.set is None) && self.min >= 0),
    {
        (self.rise.is_none() || self.set.is_none()) && self.min >= 0
    }

    /// As AltTransitionSet::is_down, for the extended set.
    pub fn is_down(&self) -> (r: bool)
        ensures
            r == ((self.rise is None || self.set is None) && self.max <= 0),
    {
        (self.rise.is_none() || self.set.is_none()) && self.max <= 0
    }

    /// 1 for a permanently up day, -1 for a permanently down one, 0
    /// for a day with crossings.
    pub fn start_mode(&self) -> (r: i8)
        ensures
            ((self.rise is None || self.set is None) && self.min >= 0) ==> r == 1,
            (!((self.rise is None || self.set is None) && self.min >= 0) && (self.rise is None
                || self.set is None) && self.max <= 0) ==> r == -1,
            (!((self.rise is None || self.set is None) && self.min >= 0) && !((self.rise is None
                || self.set is None) && self.max <= 0)) ==> r == 0,
    {
        if self.is_up() {
            1
        } else if self.is_down() {
            -1
        } else {
            0
        }
    }

    /// The plain day set inside the extended one.
    pub fn to_alt_set(&self) -> (r: AltTransitionSet)
        ensures
            r == (AltTransitionSet {
                min: self.min,
                rise: self.rise,
                mc: self.mc,
                set: self.set,
                ic: self.ic,
                max: self.max,
            }),
    {
        AltTransitionSet {
            min: self.min,
            rise: self.rise,
            mc: self.mc,
            set: self.set,
            ic: self.ic,
            max: self.max,
        }
    }
}

impl TransitionGroup for ExtendedTransitionSet {
    open spec fn spec_period(&self) -> Option<int> {
        spec_period_of(self.rise, self.set)
    }

    open spec fn times_in_range(&self) -> bool {
        &&& (self.rise matches Some(t) ==> -MAX_TIME <= t <= MAX_TIME)
        &&& (self.set matches Some(t) ==> -MAX_TIME <= t <= MAX_TIME)
    }

    open spec fn key_nums_ok(&self, s: Seq<KeyNumValue>) -> bool {
        &&& s.len() == 8
        &&& s[0].key@ == (if self.min >= 0 && self.max > 0 {
            "prev_rise"@
        } else {
            "prev_set"@
        }) && s[0].value == spec_event_value(self.prev_set)
        &&& s[1].key@ == "rise"@ && s[1].value == spec_event_value(self.rise)
        &&& s[2].key@ == "mc"@ && s[2].value == spec_event_value(self.mc)
        &&& s[3].key@ == "set"@ && s[3].value == spec_event_value(self.set)
        &&& s[4].key@ == "ic"@ && s[4].value == spec_event_value(self.ic)
        &&& s[5].key@ == (if self.min >= 0 && self.max > 0 {
            "next_set"@
        } else {
            "next_rise"@
        }) && s[5].value == spec_event_value(self.next_rise)
        &&& s[6].key@ == "min"@ && s[6].value == self.min
        &&& s[7].key@ == "max"@ && s[7].value == self.max
    }

    fn period(&self) -> (r: Option<i64>) {
        match (self.rise, self.set) {
            (Some(rise), Some(set_t)) => Some(set_t - rise),
            _ => None,
        }
    }

    fn to_key_nums(&self) -> (r: Vec<KeyNumValue>) {
        let up = self.min >= 0 && self.max > 0;
        let prev_key = if up {
            "prev_rise"
        } else {
            "prev_set"
        };
        let next_key = if up {
            "next_set"
        } else {
            "next_rise"
        };
        let mut r: Vec<KeyNumValue> = Vec::new();
        r.push(KeyNumValue::new(prev_key, event_value(self.prev_set)));
        r.push(KeyNumValue::new("rise", event_value(self.rise)));
        r.push(KeyNumValue::new("mc", event_value(self.mc)));
        r.push(KeyNumValue::new("set", event_value(self.set)));
        r.push(KeyNumValue::new("ic", event_value(self.ic)));
        r.push(KeyNumValue::new(next_key, event_value(self.next_rise)));
        r.push(KeyNumValue::new("min", self.min));
        r.push(KeyNumValue::new("max", self.max));
        r
    }
}

impl TransitionGroup for TransitionSet {
    open spec fn spec_period(&self) -> Option<int> {
        spec_period_of(self.rise, self.set)
    }

    open spec fn times_in_range(&self) -> bool {
        &&& (self.rise matches Some(t) ==> -MAX_TIME <= t <= MAX_TIME)
        &&& (self.set matches Some(t) ==> -MAX_TIME <= t <= MAX_TIME)
    }

    open spec fn key_nums_ok(&self, s: Seq<KeyNumValue>) -> bool {
        &&& s.len() == 4
        &&& s[0].key@ == "rise"@ && s[0].value == spec_event_value(self.rise)
        &&& s[1].key@ == "mc"@ && s[1].value == spec_event_value(self.mc)
        &&& s[2].key@ == "set"@ && s[2].value == spec_event_value(self.set)
        &&& s[3].key@ == "ic"@ && s[3].value == spec_event_value(self.ic)
    }

    fn period(&self) -> (r: Option<i64>) {
        match (self.rise, self.set) {
            (Some(rise), Some(set_t)) => Some(set_t - rise),
            _ => None,
        }
    }

    fn to_key_nums(&self) -> (r: Vec<KeyNumValue>) {
        let mut r: Vec<KeyNumValue> = Vec::new();
        r.push(KeyNumValue::new("rise", event_value(self.rise)));
        r.push(KeyNumValue::new("mc", event_value(self.mc)));
        r.push(KeyNumValue::new("set", event_value(self.set)));
        r.push(KeyNumValue::new("ic", event_value(self.ic)));
        r
    }
}

/// The ISO rendering of an optional instant: its date-time string when
/// present and within the civil calendar's range, the empty string
/// otherwise.
pub open spec fn spec_opt_iso_chars(o: Option<i64>) -> Seq<char> {
    match o {
        Some(t) => if MIN_CIVIL_JD_SECS <= t <= MAX_CIVIL_JD_SECS && spec_civil_fields_in_range(
            spec_jd_to_date_time(t as int),
        ) {
            spec_iso_datetime_chars(spec_jd_to_date_time(t as int))
        } else {
            Seq::empty()
        },
        None => Seq::empty(),
    }
}

/// Render an optional instant as an ISO date-time string, empty when
/// absent or out of calendar range.
pub fn iso_or_empty(o: Option<i64>) -> (r: String)
    ensures
        r@ == spec_opt_iso_chars(o),
{
    match o {
        Some(t) => {
            if MIN_CIVIL_JD_SECS <= t && t <= MAX_CIVIL_JD_SECS {
                crate::julian_date::julian_day_to_iso_datetime(t)
            } else {
                String::new()
            }
        },
        None => String::new(),
    }
}

/// The extended set's events as ISO strings, with the bracketing
/// events labelled for the day's classification.
#[derive(Debug, Clone)]
pub struct ExtendedTransitionIsoSet {
    pub prev_set: String,
    pub prev_rise: String,
    pub rise: String,
    pub mc: String,
    pub set: String,
    pub ic: String,
    pub next_rise: String,
    pub next_set: String,
    pub min: i64,
    pub max: i64,
}

/// The plain day set's events as ISO strings.
#[derive(Debug, Clone)]
pub struct AltTransitionIsoSet {
    pub min: i64,
    pub rise: String,
    pub mc: String,
    pub set: String,
    pub ic: String,
    pub max: i64,
}

/// A day's result in whichever of the four shapes a caller asked for.
#[derive(Debug, Clone)]
pub enum AltTransitionValueSet {
    JdValues(AltTransitionSet),
    IsoValues(AltTransitionIsoSet),
    ExtendedJdValues(ExtendedTransitionSet),
    ExtendedIsoValues(ExtendedTransitionIsoSet),
}

impl ExtendedTransitionSet {
    /// The events as ISO strings: on a permanently up day the
    /// bracketing events are the previous rise and next set, on any
    /// other day the previous set and next rise.
    pub fn as_iso_datetime(&self) -> (r: ExtendedTransitionIsoSet)
        ensures
            r.min == self.min,
            r.max == self.max,
            r.rise@ == spec_opt_iso_chars(self.rise),
            r.mc@ == spec_opt_iso_chars(self.mc),
            r.set@ == spec_opt_iso_chars(self.set),
            r.ic@ == spec_opt_iso_chars(self.ic),
            ((self.rise is None || self.set is None) && self.min >= 0) ==> (r.prev_rise@
                == spec_opt_iso_chars(self.prev_set) && r.prev_set@ == Seq::<char>::empty()
                && r.next_set@ == spec_opt_iso_chars(self.next_rise) && r.next_rise@ == Seq::<
                char,
            >::empty()),
            !((self.rise is None || self.set is None) && self.min >= 0) ==> (r.prev_set@
                == spec_opt_iso_chars(self.prev_set) && r.prev_rise@ == Seq::<char>::empty()
                && r.next_rise@ == spec_opt_iso_chars(self.next_rise) && r.next_set@ == Seq::<
                char,
            >::empty()),
    {
        let up = self.is_up();
        let prev_rise_val = if up {
            self.prev_set
        } else {
            None
        };
        let prev_set_val = if up {
            None
        } else {
            self.prev_set
        };
        let next_rise_val = if up {
            None
        } else {
            self.next_rise
        };
        let next_set_val = if up {
            self.next_rise
        } else {
            None
        };
        ExtendedTransitionIsoSet {
            prev_set: iso_or_empty(prev_set_val),
            prev_rise: iso_or_empty(prev_rise_val),
            rise: iso_or_empty(self.rise),
            mc: iso_or_empty(self.mc),
            set: iso_or_empty(self.set),
            ic: iso_or_empty(self.ic),
            next_rise: iso_or_empty(next_rise_val),
            next_set: iso_or_empty(next_set_val),
            min: self.min,
            max: self.max,
        }
    }

    /// The set in the shape a caller asked for: raw instants or ISO
    /// strings.
    pub fn to_value_set(&self, iso_mode: bool) -> (r: AltTransitionValueSet)
        ensures
            !iso_mode ==> (r matches AltTransitionValueSet::ExtendedJdValues(v) && v == *self),
            iso_mode ==> r is ExtendedIsoValues,
    {
        if iso_mode {
            AltTransitionValueSet::ExtendedIsoValues(self.as_iso_datetime())
        } else {
            AltTransitionValueSet::ExtendedJdValues(*self)
        }
    }
}

impl AltTransitionSet {
    /// The events as ISO strings.
    pub fn as_iso_datetime(&self) -> (r: AltTransitionIsoSet)
        ensures
            r.min == self.min,
            r.max == self.max,
            r.rise@ == spec_opt_iso_chars(self.rise),
            r.mc@ == spec_opt_iso_chars(self.mc),
            r.set@ == spec_opt_iso_chars(self.set),
            r.ic@ == spec_opt_iso_chars(self.ic),
    {
        AltTransitionIsoSet {
            min: self.min,
            rise: iso_or_empty(self.rise),
            mc: iso_or_empty(self.mc),
            set: iso_or_empty(self.set),
            ic: iso_or_empty(self.ic),
            max: self.max,
        }
    }

    /// The set in the shape a caller asked for: raw instants or ISO
    /// strings.
    pub fn to_value_set(&self, iso_mode: bool) -> (r: AltTransitionValueSet)
        ensures
            !iso_mode ==> (r matches AltTransitionValueSet::JdValues(v) && v == *self),
            iso_mode ==> r is IsoValues,
    {
        if iso_mode {
            AltTransitionValueSet::IsoValues(self.as_iso_datetime())
        } else {
            AltTransitionValueSet::JdValues(*self)
        }
    }
}

/// Truncating division, as spec_div_trunc of the scanner module, for
/// the longitude offset below.
pub open spec fn spec_lng_offset_secs(lng: int) -> int {
    if lng >= 0 {
        -((lng * 240) / 1_000_000)
    } else {
        (-lng * 240) / 1_000_000
    }
}

/// The local-day anchor: the start of the observer's local solar day
/// nearest the requested instant. It is the UTC midnight closest to the
/// instant, shifted by the longitude's time-zone-equivalent offset of
/// -lng / 15 hours, then pulled within one day of the instant.
pub open spec fn spec_start_jd_geo(jd: int, lng: int) -> int {
    let offset = spec_lng_offset_secs(lng);
    let progress = jd % (SECS_PER_DAY as int);
    let adjusted = offset - progress;
    let start_off: int = if adjusted >= HALF_DAY_SECS {
        HALF_DAY_SECS as int
    } else {
        -(HALF_DAY_SECS as int)
    };
    let start = (jd / (SECS_PER_DAY as int)) * (SECS_PER_DAY as int) + start_off;
    let ref_jd = start + offset;
    let diff = jd - ref_jd;
    if diff > SECS_PER_DAY {
        ref_jd + SECS_PER_DAY
    } else if diff < -SECS_PER_DAY {
        ref_jd - SECS_PER_DAY
    } else {
        ref_jd
    }
}

/// Anchor a computation on the observer's local solar day: the returned
/// instant is the local midnight nearest the requested one, never more
/// than a day away from it, so that "today's transits" mean the
/// observer's day rather than the time scale's native day.
pub fn start_jd_geo(jd: i64, lng: i64) -> (r: i64)
    requires
        SECS_PER_DAY <= jd <= MAX_TIME - SECS_PER_DAY,
        -180 * DEG <= lng <= 180 * DEG,
    ensures
        r == spec_start_jd_geo(jd as int, lng as int),
        jd - SECS_PER_DAY <= r <= jd + SECS_PER_DAY,
{
    proof {
        vstd::arithmetic::div_mod::lemma_fundamental_div_mod(jd as int, SECS_PER_DAY as int);
        if lng >= 0 {
            vstd::arithmetic::div_mod::lemma_div_is_ordered(
                lng as int * 240,
                180 * DEG * 240,
                1_000_000,
            );
            assert(lng as int * 240 <= 180 * DEG * 240) by (nonlinear_arith)
                requires
                    lng <= 180 * DEG,
            ;
            assert(lng as int * 240 >= 0) by (nonlinear_arith)
                requires
                    lng >= 0,
            ;
            vstd::arithmetic::div_mod::lemma_div_is_ordered(0, lng as int * 240, 1_000_000);
        } else {
            vstd::arithmetic::div_mod::lemma_div_is_ordered(
                -(lng as int) * 240,
                180 * DEG * 240,
                1_000_000,
            );
            assert(-(lng as int) * 240 <= 180 * DEG * 240) by (nonlinear_arith)
                requires
                    -(lng as int) <= 180 * DEG,
            ;
            assert(-(lng as int) * 240 >= 0) by (nonlinear_arith)
                requires
                    lng < 0,
            ;
            vstd::arithmetic::div_mod::lemma_div_is_ordered(0, -(lng as int) * 240, 1_000_000);
        }
    }
    let offset: i64 = if lng >= 0 {
        -((lng * 240) / 1_000_000)
    } else {
        ((-lng) * 240) / 1_000_000
    };
    let progress = jd % SECS_PER_DAY;
    let adjusted = offset - progress;
    let start_off: i64 = if adjusted >= HALF_DAY_SECS {
        HALF_DAY_SECS
    } else {
        -HALF_DAY_SECS
    };
    let start = (jd / SECS_PER_DAY) * SECS_PER_DAY + start_off;
    let ref_jd = start + offset;
    let diff = jd - ref_jd;
    if diff > SECS_PER_DAY {
        ref_jd + SECS_PER_DAY
    } else if diff < -SECS_PER_DAY {
        ref_jd - SECS_PER_DAY
    } else {
        ref_jd
    }
}

/// The synthetic meridian-passage instant of the fast locator: the
/// midpoint of a fixed-disc rise and the setting that follows it (or of
/// a setting and the rise that follows, for the lower passage). The
/// native upper/lower-culmination flag is unreliable on some build
/// targets, so the midpoint of two root-finder results stands in for
/// it.
pub fn transit_midpoint(first: i64, second: i64) -> (r: i64)
    requires
        0 <= first <= MAX_TIME,
        0 <= second <= MAX_TIME,
    ensures
        r == (first + second) / 2,
        first <= second ==> first <= r <= second,
{
    (first + second) / 2
}

/// Whether the altitude of a walked day keeps the walk going: still
/// below the horizon while waiting for a rise, still above it while
/// waiting for a set.
pub open spec fn spec_walk_continues(alt: int, down: bool) -> bool {
    (down && alt < 0) || (!down && alt > 0)
}

/// The first walked day whose altitude no longer satisfies the walk
/// condition, searching from position i.
pub open spec fn spec_first_flip(alts: Seq<i64>, down: bool, i: nat) -> Option<int>
    decreases alts.len() - i,
{
    if i >= alts.len() {
        None
    } else if !spec_walk_continues(alts[i as int] as int, down) {
        Some(i as int)
    } else {
        spec_first_flip(alts, down, i + 1)
    }
}

/// The instants the circumpolar day-walk re-tests the altitude at: the
/// reference instant stepped one day at a time, forward or backward,
/// up to the walk's half-year bound. The ephemeris collaborator
/// evaluates the altitude at each and find_horizon_flip takes the
/// values.
pub fn horizon_walk_schedule(jd: i64, next: bool) -> (r: Vec<i64>)
    requires
        MAX_WALK_DAYS * SECS_PER_DAY <= jd <= MAX_TIME - MAX_WALK_DAYS * SECS_PER_DAY,
    ensures
        r@.len() == MAX_WALK_DAYS,
        forall|k: int|
            0 <= k < r@.len() ==> #[trigger] r@[k] == jd + (if next {
                k
            } else {
                -k
            }) * (SECS_PER_DAY as int),
{
    let mut r: Vec<i64> = Vec::new();
    let mut k: usize = 0;
    let mut t: i64 = jd;
    let unit: i64 = if next {
        SECS_PER_DAY
    } else {
        -SECS_PER_DAY
    };
    while k < MAX_WALK_DAYS
        invariant
            0 <= k <= MAX_WALK_DAYS,
            MAX_WALK_DAYS * SECS_PER_DAY <= jd <= MAX_TIME - MAX_WALK_DAYS * SECS_PER_DAY,
            unit == if next {
                SECS_PER_DAY as int
            } else {
                -(SECS_PER_DAY as int)
            },
            t == jd + k * unit,
            r@.len() == k,
            forall|j: int|
                0 <= j < k ==> #[trigger] r@[j] == jd + (if next {
                    j
                } else {
                    -j
                }) * (SECS_PER_DAY as int),
        decreases MAX_WALK_DAYS - k,
    {
        proof {
            vstd::arithmetic::mul::lemma_mul_inequality(
                k as int,
                MAX_WALK_DAYS as int,
                SECS_PER_DAY as int,
            );
            assert((k as int) * unit == (k as int) * unit);
            assert(-(k as int) * (SECS_PER_DAY as int) == (k as int) * (-(SECS_PER_DAY as int)))
                by (nonlinear_arith);
            assert((k + 1) as int * unit == (k as int) * unit + unit) by (nonlinear_arith);
        }
        r.push(t);
        k = k + 1;
        t = t + unit;
    }
    r
}

/// The circumpolar day-walk decision: given the altitudes of up to
/// MAX_WALK_DAYS consecutive days (at the reference instant of each,
/// walking forward or backward from the anchored day), the index of the
/// first day on which the altitude sign condition flips, or None when
/// the bound is exhausted without a flip — an explicit failure, never a
/// made-up time.
pub fn find_horizon_flip(down: bool, alts: &Vec<i64>) -> (r: Option<usize>)
    requires
        alts@.len() <= MAX_WALK_DAYS,
    ensures
        match r {
            Some(i) => spec_first_flip(alts@, down, 0) == Some(i as int),
            None => spec_first_flip(alts@, down, 0) == None::<int>,
        },
{
    let n = alts.len();
    let mut i: usize = 0;
    while i < n
        invariant
            0 <= i <= n,
            n == alts@.len(),
            spec_first_flip(alts@, down, 0) == spec_first_flip(alts@, down, i as nat),
        decreases n - i,
    {
        let alt = alts[i];
        if !((down && alt < 0) || (!down && alt > 0)) {
            return Some(i);
        }
        i = i + 1;
    }
    None
}

/// Which crossing of a re-scanned day resolves the walk: the setting
/// when a permanently-down day is left behind or a permanently-up day is
/// entered forward, otherwise the rise.
pub fn choose_walk_crossing(base: &AltTransitionSet, down: bool, next: bool) -> (r: Option<i64>)
    ensures
        r == if (down && !next) || (!down && next) {
            base.set
        } else {
            base.rise
        },
{
    if (down && !next) || (!down && next) {
        base.set
    } else {
        base.rise
    }
}

/// When the re-scanned day yields no crossing, which neighbouring day
/// to try: one day onward when the day is still on the wrong side of
/// the horizon in the walk's direction, else one day back.
pub fn walk_retry_day(day_jd: i64, day_down: bool, next: bool, second_try: bool) -> (r: i64)
    requires
        SECS_PER_DAY <= day_jd <= MAX_TIME - SECS_PER_DAY,
    ensures
        ((day_down && next) || (!day_down && !next)) == !second_try ==> r == day_jd + SECS_PER_DAY,
        ((day_down && next) || (!day_down && !next)) != !second_try ==> r == day_jd - SECS_PER_DAY,
{
    let onward = (day_down && next) || (!day_down && !next);
    if onward == !second_try {
        day_jd + SECS_PER_DAY
    } else {
        day_jd - SECS_PER_DAY
    }
}

/// Whether a neighbouring day's scan failed to find both crossings, so
/// that the extended set must fall back to the circumpolar day-walk for
/// its bracketing events.
pub fn needs_horizon_walk(prev: &TransitionSet) -> (r: bool)
    ensures
        r == (prev.rise is None || prev.set is None),
{
    prev.rise.is_none() || prev.set.is_none()
}

/// The extended day set assembled from the day's own scan and the
/// bracketing events of the neighbouring days, however those were
/// resolved — by direct scan or by the day-walk.
pub fn assemble_extended(
    base: &AltTransitionSet,
    prev_set: Option<i64>,
    next_rise: Option<i64>,
) -> (r: ExtendedTransitionSet)
    ensures
        r == (ExtendedTransitionSet {
            prev_set,
            rise: base.rise,
            mc: base.mc,
            set: base.set,
            ic: base.ic,
            next_rise,
            min: base.min,
            max: base.max,
        }),
{
    ExtendedTransitionSet {
        prev_set,
        rise: base.rise,
        mc: base.mc,
        set: base.set,
        ic: base.ic,
        next_rise,
        min: base.min,
        max: base.max,
    }
}

/// The start-mode of a day set: 1 permanently up, -1 permanently down,
/// 0 ordinary.
pub open spec fn spec_start_mode_alt(s: AltTransitionSet) -> int {
    if (s.rise is None || s.set is None) && s.min >= 0 {
        1
    } else if (s.rise is None || s.set is None) && s.max <= 0 {
        -1
    } else {
        0
    }
}

/// The start-mode of an extended day set.
pub open spec fn spec_start_mode_ext(s: ExtendedTransitionSet) -> int {
    if (s.rise is None || s.set is None) && s.min >= 0 {
        1
    } else if (s.rise is None || s.set is None) && s.max <= 0 {
        -1
    } else {
        0
    }
}

/// The four bracketing instants the Indian-time computation feeds to
/// ITime::new, as wire values: on an ordinary day the rises and sets
/// themselves; on a permanently-down day the culminations stand in for
/// them; on a permanently-up day the anti-culminations bound the
/// "day".
pub open spec fn spec_indian_time_picks(
    jd: int,
    current: ExtendedTransitionSet,
    prev: AltTransitionSet,
    next: AltTransitionSet,
) -> (int, int, int, int) {
    let sm_prev = spec_start_mode_alt(prev);
    let sm_cur = spec_start_mode_ext(current);
    let sm_next = spec_start_mode_alt(next);
    let prev_start = if sm_prev == -1 {
        spec_event_value(prev.mc)
    } else if sm_prev == 1 {
        spec_event_value(prev.ic)
    } else {
        spec_event_value(prev.rise)
    };
    let base_start = if sm_cur == -1 {
        spec_event_value(current.mc)
    } else if sm_cur == 1 {
        if spec_event_value(current.ic) < jd {
            spec_event_value(current.ic)
        } else {
            spec_event_value(prev.ic)
        }
    } else {
        spec_event_value(current.rise)
    };
    let base_set = if sm_cur == -1 {
        spec_event_value(prev.mc)
    } else if sm_cur == 1 {
        spec_event_value(next.ic)
    } else {
        spec_event_value(current.set)
    };
    let next_start = if sm_next == -1 {
        spec_event_value(next.mc)
    } else if sm_next == 1 {
        if spec_event_value(current.ic) < jd {
            spec_event_value(next.ic)
        } else {
            spec_event_value(current.ic)
        }
    } else {
        spec_event_value(next.rise)
    };
    (prev_start, base_start, base_set, next_start)
}

/// The placeholder moment returned when a day's brackets are too
/// degenerate to place an instant in: the epoch's calendar fields and
/// an empty day.
pub open spec fn spec_itime_fallback() -> crate::i_time::ITime {
    crate::i_time::ITime {
        year: 1970,
        day_num: 1,
        progress_micro: 0,
        day_length: 0,
        is_day_time: false,
        day_before: false,
        muhurta: 0,
        ghati: 0,
        vighati: 0,
        lipta: 0,
        week_day_num: 5,
    }
}

/// Whether the picked brackets can place the instant: ordered, not
/// degenerate, within the civil calendar.
pub open spec fn spec_itime_picks_valid(jd: int, picks: (int, int, int, int)) -> bool {
    &&& MIN_CIVIL_JD_SECS <= picks.0 < picks.1 < picks.3 <= MAX_CIVIL_JD_SECS
    &&& MIN_CIVIL_JD_SECS <= picks.2 <= MAX_CIVIL_JD_SECS
    &&& picks.0 <= jd
    &&& MIN_CIVIL_JD_SECS + 2 * SECS_PER_DAY <= jd <= MAX_CIVIL_JD_SECS - SECS_PER_DAY
}

/// Place the instant in the observer's natural day, bracketed by the
/// Sun's transits of the previous, current and next day, and hand the
/// three day sets back in the requested value shape together with the
/// time-zone offset used (the caller's own, or the longitude's
/// time-zone equivalent of four minutes per degree).
pub fn to_indian_time_with_transitions(
    jd: i64,
    current: &ExtendedTransitionSet,
    prev: &AltTransitionSet,
    next: &AltTransitionSet,
    geo_lng: i64,
    offset_tz_secs: Option<i32>,
    iso_mode: bool,
) -> (r: (crate::i_time::ITime, AltTransitionValueSet, AltTransitionValueSet, AltTransitionValueSet, i32))
    requires
        MIN_CIVIL_JD_SECS + 2 * SECS_PER_DAY <= jd <= MAX_CIVIL_JD_SECS - SECS_PER_DAY,
        -180 * DEG <= geo_lng <= 180 * DEG,
    ensures
        ({
            let picks = spec_indian_time_picks(jd as int, *current, *prev, *next);
            let offset = match offset_tz_secs {
                Some(o) => o as int,
                None => crate::transposed_transitions::spec_div_trunc(geo_lng * 240, 1_000_000),
            };
            &&& r.4 == offset
            &&& (spec_itime_picks_valid(jd as int, picks) && -SECS_PER_DAY <= offset
                <= SECS_PER_DAY) ==> r.0 == crate::i_time::spec_itime(
                jd as int,
                picks.0,
                picks.1,
                picks.2,
                picks.3,
                spec_start_mode_ext(*current),
                offset,
            )
            &&& !(spec_itime_picks_valid(jd as int, picks) && -SECS_PER_DAY <= offset
                <= SECS_PER_DAY) ==> r.0 == spec_itime_fallback()
            &&& (!iso_mode ==> (r.1 matches AltTransitionValueSet::JdValues(v) && v == *prev))
            &&& (!iso_mode ==> (r.2 matches AltTransitionValueSet::ExtendedJdValues(v) && v
                == *current))
            &&& (!iso_mode ==> (r.3 matches AltTransitionValueSet::JdValues(v) && v == *next))
            &&& (iso_mode ==> r.1 is IsoValues && r.2 is ExtendedIsoValues && r.3 is IsoValues)
        }),
{
    let sm_prev = prev.start_mode();
    let sm_cur = current.start_mode();
    let sm_next = next.start_mode();
    let prev_start = if sm_prev == -1 {
        event_value(prev.mc)
    } else if sm_prev == 1 {
        event_value(prev.ic)
    } else {
        event_value(prev.rise)
    };
    let base_start = if sm_cur == -1 {
        event_value(current.mc)
    } else if sm_cur == 1 {
        if event_value(current.ic) < jd {
            event_value(current.ic)
        } else {
            event_value(prev.ic)
        }
    } else {
        event_value(current.rise)
    };
    let base_set = if sm_cur == -1 {
        event_value(prev.mc)
    } else if sm_cur == 1 {
        event_value(next.ic)
    } else {
        event_value(current.set)
    };
    let next_start = if sm_next == -1 {
        event_value(next.mc)
    } else if sm_next == 1 {
        if event_value(current.ic) < jd {
            event_value(next.ic)
        } else {
            event_value(current.ic)
        }
    } else {
        event_value(next.rise)
    };
    let offset_secs: i32 = match offset_tz_secs {
        Some(o) => o,
        None => crate::transposed_transitions::div_trunc(geo_lng * 240, 1_000_000) as i32,
    };
    let valid = MIN_CIVIL_JD_SECS <= prev_start && prev_start < base_start && base_start
        < next_start && next_start <= MAX_CIVIL_JD_SECS && MIN_CIVIL_JD_SECS <= base_set
        && base_set <= MAX_CIVIL_JD_SECS && prev_start <= jd && -SECS_PER_DAY
        <= offset_secs as i64 && offset_secs as i64 <= SECS_PER_DAY;
    let i_time = if valid {
        crate::i_time::ITime::new(
            jd,
            prev_start,
            base_start,
            base_set,
            next_start,
            sm_cur,
            offset_secs,
        )
    } else {
        crate::i_time::ITime {
            year: 1970,
            day_num: 1,
            progress_micro: 0,
            day_length: 0,
            is_day_time: false,
            day_before: false,
            muhurta: 0,
            ghati: 0,
            vighati: 0,
            lipta: 0,
            week_day_num: 5,
        }
    };
    (
        i_time,
        prev.to_value_set(iso_mode),
        current.to_value_set(iso_mode),
        next.to_value_set(iso_mode),
        offset_secs,
    )
}

/// The moment alone, without the day sets.
pub fn to_indian_time(
    jd: i64,
    current: &ExtendedTransitionSet,
    prev: &AltTransitionSet,
    next: &AltTransitionSet,
    geo_lng: i64,
    offset_tz_secs: Option<i32>,
) -> (r: crate::i_time::ITime)
    requires
        MIN_CIVIL_JD_SECS + 2 * SECS_PER_DAY <= jd <= MAX_CIVIL_JD_SECS - SECS_PER_DAY,
        -180 * DEG <= geo_lng <= 180 * DEG,
    ensures
        ({
            let picks = spec_indian_time_picks(jd as int, *current, *prev, *next);
            let offset = match offset_tz_secs {
                Some(o) => o as int,
                None => crate::transposed_transitions::spec_div_trunc(geo_lng * 240, 1_000_000),
            };
            &&& (spec_itime_picks_valid(jd as int, picks) && -SECS_PER_DAY <= offset
                <= SECS_PER_DAY) ==> r == crate::i_time::spec_itime(
                jd as int,
                picks.0,
                picks.1,
                picks.2,
                picks.3,
                spec_start_mode_ext(*current),
                offset,
            )
            &&& !(spec_itime_picks_valid(jd as int, picks) && -SECS_PER_DAY <= offset
                <= SECS_PER_DAY) ==> r == spec_itime_fallback()
        }),
{
    let (i_time, _prev_set, _cur_set, _next_set, _offset) = to_indian_time_with_transitions(
        jd,
        current,
        prev,
        next,
        geo_lng,
        offset_tz_secs,
        false,
    );
    i_time
}

/// The event selectors and calculation switches of the native
/// root-finder behind the fast locator. Their numeric flag values are
/// fixed by that finder's interface.
#[derive(Debug, Copy, Clone, PartialEq, Eq, Structural)]
pub enum TransitionParams {
    Rise,
    Setting,
    Mc,
    Ic,
    Center,
    Bottom,
    Fixed,
    BitNoRefraction,
    BitGeoctrNoEclLat,
}

impl TransitionParams {
    /// The native flag value of one selector.
    pub fn as_i32(self) -> (r: i32)
        ensures
            self is Rise ==> r == 1,
            self is Setting ==> r == 2,
            self is Mc ==> r == 4,
            self is Ic ==> r == 8,
            self is Center ==> r == 256,
            self is Bottom ==> r == 8192,
            self is Fixed ==> r == 16384,
            self is BitNoRefraction ==> r == 512,
            self is BitGeoctrNoEclLat ==> r == 128,
    {
        match self {
            TransitionParams::Rise => 1,
            TransitionParams::Setting => 2,
            TransitionParams::Mc => 4,
            TransitionParams::Ic => 8,
            TransitionParams::Center => 256,
            TransitionParams::Bottom => 8192,
            TransitionParams::Fixed => 16384,
            TransitionParams::BitNoRefraction => 512,
            TransitionParams::BitGeoctrNoEclLat => 128,
        }
    }

    /// Disc centre, no refraction, geocentric: the reference tuning for
    /// horizon crossings.
    pub fn center_disc_rising() -> (r: i32)
        ensures
            r == 896,
    {
        256 + 512 + 128
    }

    /// Disc bottom, no refraction, geocentric.
    pub fn bottom_disc_rising() -> (r: i32)
        ensures
            r == 8832,
    {
        8192 + 512 + 128
    }

    /// No refraction, geocentric, disc centre left to the finder.
    pub fn normal() -> (r: i32)
        ensures
            r == 640,
    {
        512 + 128
    }

    /// The disc-centre tuning combined with the rise selector.
    pub fn center_disc_rising_rise() -> (r: i32)
        ensures
            r == 897,
    {
        Self::center_disc_rising() + 1
    }

    /// The disc-centre tuning combined with the set selector.
    pub fn center_disc_rising_set() -> (r: i32)
        ensures
            r == 898,
    {
        Self::center_disc_rising() + 2
    }

    /// Fixed disc with the rise selector, for the synthetic meridian
    /// midpoints.
    pub fn rise_normal() -> (r: i32)
        ensures
            r == 16385,
    {
        16384 + 1
    }

    /// Fixed disc with the set selector, for the synthetic meridian
    /// midpoints.
    pub fn set_normal() -> (r: i32)
        ensures
            r == 16386,
    {
        16384 + 2
    }

    /// No refraction with the upper-culmination selector.
    pub fn mc() -> (r: i32)
        ensures
            r == 516,
    {
        512 + 4
    }

    /// No refraction with the lower-culmination selector.
    pub fn ic() -> (r: i32)
        ensures
            r == 520,
    {
        512 + 8
    }
}

} // verus!
