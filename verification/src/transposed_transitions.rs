//! The sampling transit scanner: walks a day of altitude samples at a fixed
//! step, finds horizon crossings by linear interpolation, and tracks the
//! extrema (upper and lower meridian passage candidates).
//!
//! The altitude of the body at each sample instant is supplied by the
//! caller as a plain vector of micro-degree values: evaluating the
//! ephemeris is the collaborator's job, every decision taken on the values
//! is verified here.
use vstd::prelude::*;

use crate::units::DEG;
use crate::units::SECS_PER_DAY;

verus! {

/// Largest absolute time value (seconds) the scanner accepts: far beyond
/// any representable calendar date, small enough that a day of offsets can
/// never overflow.
pub const MAX_TIME: i64 = 0x4000_0000_0000;

/// Largest altitude magnitude (micro-degrees) accepted as a sample value;
/// real altitudes stay within ninety degrees of the horizon.
pub const MAX_ALT: i64 = 90_000_000;

/// Largest disc-radius correction magnitude (micro-degrees); apparent
/// radii of the Sun and Moon stay well below one degree.
pub const MAX_DISC: i64 = 5_000_000;

/// Label carried by a scanned altitude sample.
#[derive(Debug, Copy, Clone, PartialEq, Eq, Structural)]
pub enum SampleMode {
    Blank,
    Rise,
    Setting,
    Mc,
    Ic,
}

/// One evaluated altitude: a label, the offset from the scan start in
/// seconds, the absolute time in seconds, and the altitude in
/// micro-degrees.
#[derive(Debug, Copy, Clone, PartialEq, Eq, Structural)]
pub struct AltitudeSample {
    pub mode: SampleMode,
    pub offset_secs: i64,
    pub jd: i64,
    pub value: i64,
}

impl AltitudeSample {
    /// A sample with every field given.
    pub fn new(mode: SampleMode, offset_secs: i64, jd: i64, value: i64) -> (r: Self)
        ensures
            r == (AltitudeSample { mode, offset_secs, jd, value }),
    {
        AltitudeSample { mode, offset_secs, jd, value }
    }

    /// A placeholder sample at time zero with the given altitude.
    pub fn basic_var(mode: SampleMode, value: i64) -> (r: Self)
        ensures
            r == (AltitudeSample { mode, offset_secs: 0i64, jd: 0i64, value }),
    {
        AltitudeSample { mode, offset_secs: 0, jd: 0, value }
    }

    /// A placeholder sample at time zero on the horizon.
    pub fn basic(mode: SampleMode) -> (r: Self)
        ensures
            r == (AltitudeSample { mode, offset_secs: 0i64, jd: 0i64, value: 0i64 }),
    {
        Self::basic_var(mode, 0)
    }

    /// A placeholder far below any real altitude, for seeding a maximum.
    pub fn basic_low(mode: SampleMode) -> (r: Self)
        ensures
            r.mode == mode,
            r.offset_secs == 0,
            r.jd == 0,
            r.value == -90 * DEG,
    {
        Self::basic_var(mode, -90 * DEG)
    }

    /// A placeholder far above any real altitude, for seeding a minimum.
    pub fn basic_high(mode: SampleMode) -> (r: Self)
        ensures
            r.mode == mode,
            r.offset_secs == 0,
            r.jd == 0,
            r.value == 90 * DEG,
    {
        Self::basic_var(mode, 90 * DEG)
    }

    /// Relabel the sample.
    pub fn set_mode(&mut self, mode: SampleMode)
        ensures
            *final(self) == (AltitudeSample { mode, ..*old(self) }),
    {
        self.mode = mode;
    }

    /// The sample's instant as an ISO date-time string: empty for a
    /// placeholder at or before time zero, or for an instant outside
    /// the civil calendar's range.
    pub fn datetime_string(&self) -> (r: String)
        ensures
            self.jd > 0 ==> r@ == crate::transitions::spec_opt_iso_chars(Some(self.jd)),
            self.jd <= 0 ==> r@ == Seq::<char>::empty(),
    {
        if self.jd > 0 {
            crate::transitions::iso_or_empty(Some(self.jd))
        } else {
            String::new()
        }
    }

    /// The sample flattened to a labelled number: its label's key over
    /// its instant.
    pub fn to_key_num(&self) -> (r: crate::general::KeyNumValue)
        ensures
            r.value == self.jd,
            self.mode is Rise ==> r.key@ == "rise"@,
            self.mode is Setting ==> r.key@ == "set"@,
            self.mode is Mc ==> r.key@ == "mc"@,
            self.mode is Ic ==> r.key@ == "ic"@,
            self.mode is Blank ==> r.key@ == ""@,
    {
        crate::general::KeyNumValue::new(self.mode.as_key(), self.jd)
    }
}

impl SampleMode {
    /// The key string of the label.
    pub fn as_key(self) -> (r: &'static str)
        ensures
            self is Rise ==> r@ == "rise"@,
            self is Setting ==> r@ == "set"@,
            self is Mc ==> r@ == "mc"@,
            self is Ic ==> r@ == "ic"@,
            self is Blank ==> r@ == ""@,
    {
        match self {
            SampleMode::Blank => "",
            SampleMode::Rise => "rise",
            SampleMode::Setting => "set",
            SampleMode::Mc => "mc",
            SampleMode::Ic => "ic",
        }
    }
}

/// Which of the four transit events a scan must compute.
#[derive(Debug, Copy, Clone, PartialEq, Eq, Structural)]
pub enum TransitionFilter {
    Rise,
    Setting,
    Ic,
    Mc,
    RiseSet,
    McIc,
    All,
}

impl TransitionFilter {
    /// The filter asks for the rising crossing.
    pub open spec fn spec_match_rise(self) -> bool {
        self is Rise || self is RiseSet || self is All
    }

    /// The filter asks for the setting crossing.
    pub open spec fn spec_match_set(self) -> bool {
        self is Setting || self is RiseSet || self is All
    }

    /// The filter asks for the upper culmination.
    pub open spec fn spec_match_mc(self) -> bool {
        self is Mc || self is McIc || self is All
    }

    /// The filter asks for the lower culmination.
    pub open spec fn spec_match_ic(self) -> bool {
        self is Ic || self is McIc || self is All
    }

    pub fn match_rise(self) -> (r: bool)
        ensures
            r == self.spec_match_rise(),
    {
        matches!(self, TransitionFilter::Rise | TransitionFilter::RiseSet | TransitionFilter::All)
    }

    pub fn match_set(self) -> (r: bool)
        ensures
            r == self.spec_match_set(),
    {
        matches!(self, TransitionFilter::Setting | TransitionFilter::RiseSet | TransitionFilter::All)
    }

    pub fn match_mc(self) -> (r: bool)
        ensures
            r == self.spec_match_mc(),
    {
        matches!(self, TransitionFilter::Mc | TransitionFilter::McIc | TransitionFilter::All)
    }

    pub fn match_ic(self) -> (r: bool)
        ensures
            r == self.spec_match_ic(),
    {
        matches!(self, TransitionFilter::Ic | TransitionFilter::McIc | TransitionFilter::All)
    }
}

/// The instant where the straight line through (t1, v1) and (t2, v2)
/// crosses zero, rounded towards t2: t2 - (t2 - t1) * v2 / (v2 - v1).
/// Written so that both division operands are nonnegative in either
/// bracketing direction.
pub open spec fn spec_interp_crossing(t1: int, t2: int, v1: int, v2: int) -> int {
    if v2 >= 0 {
        t2 - (t2 - t1) * v2 / (v2 - v1)
    } else {
        t2 - (t2 - t1) * (-v2) / (v1 - v2)
    }
}

/// Linear interpolation of the horizon-crossing instant between two
/// bracketing samples whose altitudes straddle zero. The result always
/// lies strictly after the earlier sample and not after the later one.
pub fn calc_mid_point(first: &AltitudeSample, second: &AltitudeSample) -> (r: i64)
    requires
        -MAX_TIME <= first.jd <= second.jd <= MAX_TIME,
        second.jd - first.jd <= SECS_PER_DAY,
        (first.value < 0 && second.value > 0) || (first.value > 0 && second.value < 0),
        -2 * MAX_ALT <= first.value <= 2 * MAX_ALT,
        -2 * MAX_ALT <= second.value <= 2 * MAX_ALT,
    ensures
        r == spec_interp_crossing(first.jd as int, second.jd as int, first.value as int, second.value as int),
        first.jd <= r <= second.jd,
        first.jd < second.jd ==> first.jd < r,
{
    let t1 = first.jd;
    let t2 = second.jd;
    let dt = t2 - t1;
    if second.value >= 0 {
        proof {
            assert(0 <= dt * second.value <= SECS_PER_DAY * (2 * MAX_ALT)) by (nonlinear_arith)
                requires
                    0 <= dt <= SECS_PER_DAY,
                    0 <= second.value <= 2 * MAX_ALT,
            ;
        }
        let num = dt * second.value;
        let den = second.value - first.value;
        let delta = num / den;
        proof {
            lemma_interp_delta_bounds(dt as int, second.value as int, den as int);
        }
        t2 - delta
    } else {
        proof {
            assert(0 <= dt * (-second.value) <= SECS_PER_DAY * (2 * MAX_ALT)) by (nonlinear_arith)
                requires
                    0 <= dt <= SECS_PER_DAY,
                    0 <= -second.value <= 2 * MAX_ALT,
            ;
        }
        let num = dt * (-second.value);
        let den = first.value - second.value;
        let delta = num / den;
        proof {
            lemma_interp_delta_bounds(dt as int, -second.value as int, den as int);
        }
        t2 - delta
    }
}

/// The interpolation step never leaves the bracketing interval: with
/// 0 <= v < den the scaled quotient stays in [0, dt), or [0, 0] when the
/// interval is empty.
proof fn lemma_interp_delta_bounds(dt: int, v: int, den: int)
    requires
        dt >= 0,
        0 <= v < den,
    ensures
        0 <= dt * v / den <= dt,
        dt > 0 ==> dt * v / den < dt,
{
    assert(dt * v >= 0) by (nonlinear_arith)
        requires
            dt >= 0,
            v >= 0,
    ;
    assert(dt * v / den >= 0) by (nonlinear_arith)
        requires
            dt * v >= 0,
            den > 0,
    ;
    if dt > 0 {
        assert(dt * v <= dt * (den - 1)) by (nonlinear_arith)
            requires
                dt > 0,
                v <= den - 1,
        ;
        assert(dt * (den - 1) / den < dt) by (nonlinear_arith)
            requires
                dt > 0,
                den > 0,
        ;
        assert(dt * v / den <= dt * (den - 1) / den) by (nonlinear_arith)
            requires
                dt * v <= dt * (den - 1),
                den > 0,
        ;
    } else {
        assert(dt * v == 0) by (nonlinear_arith)
            requires
                dt == 0,
                v >= 0,
                dt * v >= 0,
        ;
    }
}

/// Every sample value lies within the physical altitude range.
pub open spec fn alts_bounded(alts: Seq<i64>) -> bool {
    forall|k: int| 0 <= k < alts.len() ==> -MAX_ALT <= #[trigger] alts[k] <= MAX_ALT
}

/// The altitude sign flips from below to above the horizon between
/// samples i-1 and i, after raising both by the disc correction d.
pub open spec fn rise_cross_at(alts: Seq<i64>, d: int, i: int) -> bool {
    1 <= i < alts.len() && alts[i - 1] + d < 0 && alts[i] + d > 0
}

/// The altitude sign flips from above to below the horizon between
/// samples i-1 and i, after lowering both by the disc correction d.
pub open spec fn set_cross_at(alts: Seq<i64>, d: int, i: int) -> bool {
    1 <= i < alts.len() && alts[i - 1] - d > 0 && alts[i] - d < 0
}

/// Index of the first rising crossing at or after position i, if any.
pub open spec fn first_rise_from(alts: Seq<i64>, d: int, i: nat) -> Option<int>
    decreases alts.len() - i,
{
    if i >= alts.len() {
        None
    } else if rise_cross_at(alts, d, i as int) {
        Some(i as int)
    } else {
        first_rise_from(alts, d, i + 1)
    }
}

/// Index of the first setting crossing at or after position i, if any.
pub open spec fn first_set_from(alts: Seq<i64>, d: int, i: nat) -> Option<int>
    decreases alts.len() - i,
{
    if i >= alts.len() {
        None
    } else if set_cross_at(alts, d, i as int) {
        Some(i as int)
    } else {
        first_set_from(alts, d, i + 1)
    }
}

/// Index of the last rising crossing before position n, if any.
pub open spec fn last_rise_before(alts: Seq<i64>, d: int, n: nat) -> Option<int>
    decreases n,
{
    if n <= 1 {
        None
    } else if rise_cross_at(alts, d, n - 1) {
        Some(n - 1)
    } else {
        last_rise_before(alts, d, (n - 1) as nat)
    }
}

/// Index of the last setting crossing before position n, if any.
pub open spec fn last_set_before(alts: Seq<i64>, d: int, n: nat) -> Option<int>
    decreases n,
{
    if n <= 1 {
        None
    } else if set_cross_at(alts, d, n - 1) {
        Some(n - 1)
    } else {
        last_set_before(alts, d, (n - 1) as nat)
    }
}

/// Index of the running maximum over the first n samples: the earliest
/// sample that no later one strictly exceeds, exactly as a fold that
/// replaces its best candidate only on a strictly larger value.
pub open spec fn peak_upto(alts: Seq<i64>, n: nat) -> int
    decreases n,
{
    if n <= 1 {
        0
    } else {
        let p = peak_upto(alts, (n - 1) as nat);
        if alts[n - 1] > alts[p] {
            n - 1
        } else {
            p
        }
    }
}

/// Index of the running minimum over the first n samples, symmetric to
/// peak_upto.
pub open spec fn trough_upto(alts: Seq<i64>, n: nat) -> int
    decreases n,
{
    if n <= 1 {
        0
    } else {
        let p = trough_upto(alts, (n - 1) as nat);
        if alts[n - 1] < alts[p] {
            n - 1
        } else {
            p
        }
    }
}

/// The peak index lies in range, carries the maximum value, and is the
/// first position attaining it.
pub proof fn lemma_peak_upto(alts: Seq<i64>, n: nat)
    requires
        1 <= n <= alts.len(),
    ensures
        0 <= peak_upto(alts, n) < n,
        forall|j: int| 0 <= j < n ==> #[trigger] alts[j] <= alts[peak_upto(alts, n)],
        forall|j: int| 0 <= j < peak_upto(alts, n) ==> #[trigger] alts[j] < alts[peak_upto(alts, n)],
    decreases n,
{
    if n > 1 {
        lemma_peak_upto(alts, (n - 1) as nat);
    }
}

/// The trough index lies in range, carries the minimum value, and is the
/// first position attaining it.
pub proof fn lemma_trough_upto(alts: Seq<i64>, n: nat)
    requires
        1 <= n <= alts.len(),
    ensures
        0 <= trough_upto(alts, n) < n,
        forall|j: int| 0 <= j < n ==> #[trigger] alts[j] >= alts[trough_upto(alts, n)],
        forall|j: int| 0 <= j < trough_upto(alts, n) ==> #[trigger] alts[j] > alts[trough_upto(alts, n)],
    decreases n,
{
    if n > 1 {
        lemma_trough_upto(alts, (n - 1) as nat);
    }
}

/// A found index reported by a search, widened for comparison against the
/// specification-level result.
pub open spec fn lift_idx(o: Option<usize>) -> Option<int> {
    match o {
        Some(i) => Some(i as int),
        None => None,
    }
}

/// Scan forward for the first rising crossing.
fn find_first_rise(alts: &Vec<i64>, d: i64) -> (r: Option<usize>)
    requires
        alts_bounded(alts@),
        -MAX_DISC <= d <= MAX_DISC,
    ensures
        lift_idx(r) == first_rise_from(alts@, d as int, 0),
{
    let n = alts.len();
    let mut i: usize = 1;
    proof {
        assert(first_rise_from(alts@, d as int, 0) == first_rise_from(alts@, d as int, 1));
    }
    while i < n
        invariant
            1 <= i,
            n == alts@.len(),
            alts_bounded(alts@),
            -MAX_DISC <= d <= MAX_DISC,
            first_rise_from(alts@, d as int, 0) == first_rise_from(alts@, d as int, i as nat),
        decreases n - i,
    {
        if alts[i - 1] + d < 0 && alts[i] + d > 0 {
            return Some(i);
        }
        i = i + 1;
    }
    None
}

/// Scan forward for the first setting crossing.
fn find_first_set(alts: &Vec<i64>, d: i64) -> (r: Option<usize>)
    requires
        alts_bounded(alts@),
        -MAX_DISC <= d <= MAX_DISC,
    ensures
        lift_idx(r) == first_set_from(alts@, d as int, 0),
{
    let n = alts.len();
    let mut i: usize = 1;
    proof {
        assert(first_set_from(alts@, d as int, 0) == first_set_from(alts@, d as int, 1));
    }
    while i < n
        invariant
            1 <= i,
            n == alts@.len(),
            alts_bounded(alts@),
            -MAX_DISC <= d <= MAX_DISC,
            first_set_from(alts@, d as int, 0) == first_set_from(alts@, d as int, i as nat),
        decreases n - i,
    {
        if alts[i - 1] - d > 0 && alts[i] - d < 0 {
            return Some(i);
        }
        i = i + 1;
    }
    None
}

/// Scan the whole day and keep the last rising crossing.
fn find_last_rise(alts: &Vec<i64>, d: i64) -> (r: Option<usize>)
    requires
        alts_bounded(alts@),
        -MAX_DISC <= d <= MAX_DISC,
    ensures
        lift_idx(r) == last_rise_before(alts@, d as int, alts@.len()),
{
    let n = alts.len();
    if n == 0 {
        return None;
    }
    let mut best: Option<usize> = None;
    let mut i: usize = 1;
    while i < n
        invariant
            1 <= i <= n,
            n == alts@.len(),
            alts_bounded(alts@),
            -MAX_DISC <= d <= MAX_DISC,
            lift_idx(best) == last_rise_before(alts@, d as int, i as nat),
        decreases n - i,
    {
        if alts[i - 1] + d < 0 && alts[i] + d > 0 {
            best = Some(i);
        }
        i = i + 1;
    }
    best
}

/// Scan the whole day and keep the last setting crossing.
fn find_last_set(alts: &Vec<i64>, d: i64) -> (r: Option<usize>)
    requires
        alts_bounded(alts@),
        -MAX_DISC <= d <= MAX_DISC,
    ensures
        lift_idx(r) == last_set_before(alts@, d as int, alts@.len()),
{
    let n = alts.len();
    if n == 0 {
        return None;
    }
    let mut best: Option<usize> = None;
    let mut i: usize = 1;
    while i < n
        invariant
            1 <= i <= n,
            n == alts@.len(),
            alts_bounded(alts@),
            -MAX_DISC <= d <= MAX_DISC,
            lift_idx(best) == last_set_before(alts@, d as int, i as nat),
        decreases n - i,
    {
        if alts[i - 1] - d > 0 && alts[i] - d < 0 {
            best = Some(i);
        }
        i = i + 1;
    }
    best
}

/// Index of the first sample attaining the day's maximum altitude.
fn find_peak(alts: &Vec<i64>) -> (r: usize)
    requires
        alts@.len() >= 1,
    ensures
        r as int == peak_upto(alts@, alts@.len()),
{
    let n = alts.len();
    let mut best: usize = 0;
    let mut i: usize = 1;
    while i < n
        invariant
            1 <= i <= n,
            n == alts@.len(),
            0 <= best < i,
            best as int == peak_upto(alts@, i as nat),
        decreases n - i,
    {
        if alts[i] > alts[best] {
            best = i;
        }
        i = i + 1;
    }
    best
}

/// Largest angular speed magnitude (micro-degrees per day) accepted for
/// proper-motion extrapolation; the Moon, the fastest body, stays well
/// below twenty degrees per day.
pub const MAX_SPEED: i64 = 100_000_000;

/// Truncating division (rounding towards zero), the rounding used when a
/// fixed-point product is scaled back down.
pub open spec fn spec_div_trunc(a: int, b: int) -> int {
    if a >= 0 {
        a / b
    } else {
        -((-a) / b)
    }
}

/// Scale a signed fixed-point product down by a positive divisor,
/// rounding towards zero.
pub fn div_trunc(a: i64, b: i64) -> (r: i64)
    requires
        b > 0,
        a > i64::MIN,
    ensures
        r == spec_div_trunc(a as int, b as int),
        a >= 0 ==> 0 <= r <= a,
        a < 0 ==> a <= r <= 0,
{
    proof {
        vstd::arithmetic::div_mod::lemma_fundamental_div_mod(a as int, b as int);
        vstd::arithmetic::div_mod::lemma_fundamental_div_mod(-(a as int), b as int);
    }
    if a >= 0 {
        a / b
    } else {
        -((-a) / b)
    }
}

/// Longitude (or latitude) advanced by a linear proper motion over the
/// elapsed scan time: the coordinate plus speed times the elapsed
/// day-fraction. A zero speed leaves the coordinate unchanged.
pub open spec fn spec_extrapolated(coord: int, speed: int, elapsed_secs: int) -> int {
    coord + spec_div_trunc(speed * elapsed_secs, SECS_PER_DAY as int)
}

/// Linearly extrapolate an ecliptic coordinate from its reference value
/// and angular speed to a later sample instant.
pub fn extrapolate_coord(coord: i64, speed: i64, elapsed_secs: i64) -> (r: i64)
    requires
        -720 * DEG <= coord <= 720 * DEG,
        -MAX_SPEED <= speed <= MAX_SPEED,
        0 <= elapsed_secs <= 2 * SECS_PER_DAY,
    ensures
        r == spec_extrapolated(coord as int, speed as int, elapsed_secs as int),
        speed == 0 ==> r == coord,
{
    proof {
        lemma_product_bound(speed as int, elapsed_secs as int, MAX_SPEED as int, 2 * SECS_PER_DAY);
    }
    let scaled = div_trunc(speed * elapsed_secs, SECS_PER_DAY);
    coord + scaled
}

/// A product of a bounded factor and a nonnegative bounded factor stays
/// within the product of the bounds.
proof fn lemma_product_bound(a: int, b: int, ca: int, cb: int)
    requires
        -ca <= a <= ca,
        0 <= b <= cb,
        0 <= ca,
    ensures
        -(ca * cb) <= a * b <= ca * cb,
{
    assert(-(ca * cb) <= a * b <= ca * cb) by (nonlinear_arith)
        requires
            -ca <= a <= ca,
            0 <= b <= cb,
            0 <= ca,
    ;
}

/// One instant of the scan schedule with the body's extrapolated
/// ecliptic coordinates, ready for an altitude evaluation by the
/// ephemeris collaborator.
#[derive(Debug, Copy, Clone, PartialEq, Eq, Structural)]
pub struct SamplePoint {
    pub jd: i64,
    pub lng: i64,
    pub lat: i64,
}

/// Number of samples in a whole-day scan at the given step.
pub open spec fn spec_scan_len(step_secs: int) -> int {
    SECS_PER_DAY as int / step_secs + 1
}

/// From the division identity: the quotient of a whole day by a step in
/// its range is at least one, at most the day, and scales back below the
/// day.
proof fn lemma_quotient_bounds(total: int, step: int, q: int, rem: int)
    requires
        total == step * q + rem,
        0 <= rem < step,
        1 <= step <= total,
    ensures
        1 <= q <= total,
        q * step <= total,
{
    assert(1 <= q <= total && q * step <= total) by (nonlinear_arith)
        requires
            total == step * q + rem,
            0 <= rem < step,
            1 <= step <= total,
    ;
}

/// The sample count times the step never leaves the scanned day by more
/// than one step.
proof fn lemma_scan_len_bound(step_secs: int)
    requires
        1 <= step_secs <= SECS_PER_DAY,
    ensures
        1 <= spec_scan_len(step_secs) <= SECS_PER_DAY + 1,
        (spec_scan_len(step_secs) - 1) * step_secs <= SECS_PER_DAY,
{
    let q = SECS_PER_DAY as int / step_secs;
    let rem = SECS_PER_DAY as int % step_secs;
    vstd::arithmetic::div_mod::lemma_fundamental_div_mod(SECS_PER_DAY as int, step_secs);
    lemma_quotient_bounds(SECS_PER_DAY as int, step_secs, q, rem);
}

/// The schedule of sample instants for one scanned day, with the body's
/// coordinates extrapolated from a single reference position and speed,
/// as used for every body but the fastest.
pub fn scan_points(
    jd_start: i64,
    step_secs: i64,
    lng: i64,
    lat: i64,
    lng_speed: i64,
    lat_speed: i64,
) -> (r: Vec<SamplePoint>)
    requires
        0 <= jd_start <= MAX_TIME - 3 * SECS_PER_DAY,
        1 <= step_secs <= SECS_PER_DAY,
        0 <= lng <= 360 * DEG,
        -90 * DEG <= lat <= 90 * DEG,
        -MAX_SPEED <= lng_speed <= MAX_SPEED,
        -MAX_SPEED <= lat_speed <= MAX_SPEED,
    ensures
        r@.len() == spec_scan_len(step_secs as int),
        forall|k: int|
            0 <= k < r@.len() ==> #[trigger] r@[k] == (SamplePoint {
                jd: (jd_start + k * step_secs) as i64,
                lng: spec_extrapolated(lng as int, lng_speed as int, k * step_secs) as i64,
                lat: spec_extrapolated(lat as int, lat_speed as int, k * step_secs) as i64,
            }),
{
    proof {
        lemma_scan_len_bound(step_secs as int);
    }
    let count = SECS_PER_DAY / step_secs + 1;
    let mut r: Vec<SamplePoint> = Vec::new();
    let mut k: i64 = 0;
    let mut elapsed: i64 = 0;
    while k < count
        invariant
            0 <= k <= count,
            count == spec_scan_len(step_secs as int),
            1 <= step_secs <= SECS_PER_DAY,
            (count - 1) * step_secs <= SECS_PER_DAY,
            elapsed == k * step_secs,
            0 <= jd_start <= MAX_TIME - 3 * SECS_PER_DAY,
            0 <= lng <= 360 * DEG,
            -90 * DEG <= lat <= 90 * DEG,
            -MAX_SPEED <= lng_speed <= MAX_SPEED,
            -MAX_SPEED <= lat_speed <= MAX_SPEED,
            r@.len() == k,
            forall|j: int|
                0 <= j < k ==> #[trigger] r@[j] == (SamplePoint {
                    jd: (jd_start + j * step_secs) as i64,
                    lng: spec_extrapolated(lng as int, lng_speed as int, j * step_secs) as i64,
                    lat: spec_extrapolated(lat as int, lat_speed as int, j * step_secs) as i64,
                }),
        decreases count - k,
    {
        proof {
            vstd::arithmetic::mul::lemma_mul_inequality(k as int, count - 1, step_secs as int);
        }
        let p = SamplePoint {
            jd: jd_start + elapsed,
            lng: extrapolate_coord(lng, lng_speed, elapsed),
            lat: extrapolate_coord(lat, lat_speed, elapsed),
        };
        r.push(p);
        proof {
            assert((k + 1) * step_secs == k * step_secs + step_secs) by (nonlinear_arith);
        }
        k = k + 1;
        elapsed = elapsed + step_secs;
    }
    r
}

/// The same schedule with a freshly sampled angular speed for every
/// instant, as the scanner uses for the fastest body, where one day of
/// linear extrapolation from a single speed value is too coarse. The
/// caller supplies the re-queried (longitude speed, latitude speed) pair
/// for each step.
pub fn scan_points_resampled(
    jd_start: i64,
    step_secs: i64,
    lng: i64,
    lat: i64,
    speeds: &Vec<(i64, i64)>,
) -> (r: Vec<SamplePoint>)
    requires
        0 <= jd_start <= MAX_TIME - 3 * SECS_PER_DAY,
        1 <= step_secs <= SECS_PER_DAY,
        0 <= lng <= 360 * DEG,
        -90 * DEG <= lat <= 90 * DEG,
        speeds@.len() == spec_scan_len(step_secs as int),
        forall|k: int|
            0 <= k < speeds@.len() ==> -MAX_SPEED <= (#[trigger] speeds@[k]).0 <= MAX_SPEED
                && -MAX_SPEED <= speeds@[k].1 <= MAX_SPEED,
    ensures
        r@.len() == spec_scan_len(step_secs as int),
        forall|k: int|
            0 <= k < r@.len() ==> #[trigger] r@[k] == (SamplePoint {
                jd: (jd_start + k * step_secs) as i64,
                lng: spec_extrapolated(lng as int, speeds@[k].0 as int, k * step_secs) as i64,
                lat: spec_extrapolated(lat as int, speeds@[k].1 as int, k * step_secs) as i64,
            }),
{
    proof {
        lemma_scan_len_bound(step_secs as int);
    }
    let count = SECS_PER_DAY / step_secs + 1;
    let mut r: Vec<SamplePoint> = Vec::new();
    let mut k: i64 = 0;
    let mut elapsed: i64 = 0;
    while k < count
        invariant
            0 <= k <= count,
            count == spec_scan_len(step_secs as int),
            1 <= step_secs <= SECS_PER_DAY,
            (count - 1) * step_secs <= SECS_PER_DAY,
            elapsed == k * step_secs,
            0 <= jd_start <= MAX_TIME - 3 * SECS_PER_DAY,
            0 <= lng <= 360 * DEG,
            -90 * DEG <= lat <= 90 * DEG,
            speeds@.len() == count,
            forall|j: int|
                0 <= j < speeds@.len() ==> -MAX_SPEED <= (#[trigger] speeds@[j]).0 <= MAX_SPEED
                    && -MAX_SPEED <= speeds@[j].1 <= MAX_SPEED,
            r@.len() == k,
            forall|j: int|
                0 <= j < k ==> #[trigger] r@[j] == (SamplePoint {
                    jd: (jd_start + j * step_secs) as i64,
                    lng: spec_extrapolated(lng as int, speeds@[j].0 as int, j * step_secs) as i64,
                    lat: spec_extrapolated(lat as int, speeds@[j].1 as int, j * step_secs) as i64,
                }),
        decreases count - k,
    {
        proof {
            vstd::arithmetic::mul::lemma_mul_inequality(k as int, count - 1, step_secs as int);
        }
        let sp = speeds[k as usize];
        let p = SamplePoint {
            jd: jd_start + elapsed,
            lng: extrapolate_coord(lng, sp.0, elapsed),
            lat: extrapolate_coord(lat, sp.1, elapsed),
        };
        r.push(p);
        proof {
            assert((k + 1) * step_secs == k * step_secs + step_secs) by (nonlinear_arith);
        }
        k = k + 1;
        elapsed = elapsed + step_secs;
    }
    r
}

/// The crossing the scan reports for the rising event: with only the
/// rise requested the scan stops at the first crossing found, while a
/// scan that must walk the whole day anyway keeps the last one.
pub open spec fn spec_rise_choice(alts: Seq<i64>, d: int, filter: TransitionFilter) -> Option<
    int,
> {
    if !filter.spec_match_rise() {
        None
    } else if filter is Rise {
        first_rise_from(alts, d, 0)
    } else {
        last_rise_before(alts, d, alts.len())
    }
}

/// The crossing the scan reports for the setting event, symmetric to
/// spec_rise_choice.
pub open spec fn spec_set_choice(alts: Seq<i64>, d: int, filter: TransitionFilter) -> Option<
    int,
> {
    if !filter.spec_match_set() {
        None
    } else if filter is Setting {
        first_set_from(alts, d, 0)
    } else {
        last_set_before(alts, d, alts.len())
    }
}

/// The sample recorded for a crossing between positions i-1 and i: the
/// interpolated instant, labelled, on the horizon.
pub open spec fn spec_crossing_sample(
    jd_start: int,
    step: int,
    alts: Seq<i64>,
    d: int,
    i: int,
    rising: bool,
) -> AltitudeSample {
    let t1 = jd_start + (i - 1) * step;
    let t2 = jd_start + i * step;
    let v1 = if rising {
        alts[i - 1] + d
    } else {
        alts[i - 1] - d
    };
    let v2 = if rising {
        alts[i] + d
    } else {
        alts[i] - d
    };
    AltitudeSample {
        mode: if rising {
            SampleMode::Rise
        } else {
            SampleMode::Setting
        },
        offset_secs: ((i - 1) * step) as i64,
        jd: spec_interp_crossing(t1, t2, v1, v2) as i64,
        value: 0,
    }
}

/// The reported crossing sample, if a crossing was chosen.
pub open spec fn spec_opt_crossing(
    jd_start: int,
    step: int,
    alts: Seq<i64>,
    d: int,
    oi: Option<int>,
    rising: bool,
) -> Option<AltitudeSample> {
    match oi {
        Some(i) => Some(spec_crossing_sample(jd_start, step, alts, d, i, rising)),
        None => None,
    }
}

/// The sample recorded for a culmination candidate at position i.
pub open spec fn spec_extremum_sample(
    jd_start: int,
    step: int,
    alts: Seq<i64>,
    i: int,
    high: bool,
) -> AltitudeSample {
    AltitudeSample {
        mode: if high {
            SampleMode::Mc
        } else {
            SampleMode::Ic
        },
        offset_secs: (i * step) as i64,
        jd: (jd_start + i * step) as i64,
        value: alts[i],
    }
}

/// A window whose samples fit the scan bound holds at most two days of
/// steps, so every index is small.
proof fn lemma_len_within_window(len: int, step: int)
    requires
        1 <= len,
        1 <= step <= SECS_PER_DAY,
        (len - 1) * step <= 2 * SECS_PER_DAY,
    ensures
        len - 1 <= 2 * SECS_PER_DAY,
{
    assert(len - 1 <= (len - 1) * step) by (nonlinear_arith)
        requires
            1 <= step,
            0 <= len - 1,
    ;
}

/// Build the reported crossing sample for a verified crossing index.
fn make_crossing(
    jd_start: i64,
    step_secs: i64,
    alts: &Vec<i64>,
    d: i64,
    i: usize,
    rising: bool,
) -> (r: AltitudeSample)
    requires
        0 <= jd_start <= MAX_TIME - 3 * SECS_PER_DAY,
        1 <= step_secs <= SECS_PER_DAY,
        (alts@.len() - 1) * step_secs <= 2 * SECS_PER_DAY,
        alts_bounded(alts@),
        0 <= d <= MAX_DISC,
        rising ==> rise_cross_at(alts@, d as int, i as int),
        !rising ==> set_cross_at(alts@, d as int, i as int),
    ensures
        r == spec_crossing_sample(
            jd_start as int,
            step_secs as int,
            alts@,
            d as int,
            i as int,
            rising,
        ),
{
    proof {
        lemma_len_within_window(alts@.len() as int, step_secs as int);
    }
    let i_prev = (i - 1) as i64;
    proof {
        vstd::arithmetic::mul::lemma_mul_inequality(
            i_prev as int,
            alts@.len() - 1,
            step_secs as int,
        );
        assert(i_prev * step_secs >= 0) by (nonlinear_arith)
            requires
                i_prev >= 0,
                step_secs >= 1,
        ;
        assert((i as int) * step_secs == i_prev * step_secs + step_secs) by (nonlinear_arith)
            requires
                i_prev == i - 1,
        ;
    }
    let prev_off = i_prev * step_secs;
    let off = prev_off + step_secs;
    let t1 = jd_start + prev_off;
    let t2 = jd_start + off;
    let mode = if rising {
        SampleMode::Rise
    } else {
        SampleMode::Setting
    };
    let v1 = if rising {
        alts[i - 1] + d
    } else {
        alts[i - 1] - d
    };
    let v2 = if rising {
        alts[i] + d
    } else {
        alts[i] - d
    };
    let prev = AltitudeSample { mode, offset_secs: prev_off, jd: t1, value: v1 };
    let cur = AltitudeSample { mode, offset_secs: off, jd: t2, value: v2 };
    let jd = calc_mid_point(&prev, &cur);
    AltitudeSample { mode, offset_secs: prev_off, jd, value: 0 }
}

/// Build the reported culmination sample for an extremum index.
fn make_extremum(jd_start: i64, step_secs: i64, alts: &Vec<i64>, i: usize, high: bool) -> (r:
    AltitudeSample)
    requires
        0 <= jd_start <= MAX_TIME - 3 * SECS_PER_DAY,
        1 <= step_secs <= SECS_PER_DAY,
        (alts@.len() - 1) * step_secs <= 2 * SECS_PER_DAY,
        i < alts@.len(),
    ensures
        r == spec_extremum_sample(jd_start as int, step_secs as int, alts@, i as int, high),
{
    proof {
        lemma_len_within_window(alts@.len() as int, step_secs as int);
    }
    let iv = i as i64;
    proof {
        vstd::arithmetic::mul::lemma_mul_inequality(iv as int, alts@.len() - 1, step_secs as int);
        assert(iv * step_secs >= 0) by (nonlinear_arith)
            requires
                iv >= 0,
                step_secs >= 1,
        ;
    }
    let off = iv * step_secs;
    let mode = if high {
        SampleMode::Mc
    } else {
        SampleMode::Ic
    };
    AltitudeSample { mode, offset_secs: off, jd: jd_start + off, value: alts[i] }
}

/// The four events of one scanned day, each absent when the scan found
/// no crossing or was not asked for it. No sentinel values: an object
/// that does not cross the horizon yields no rise and no set, and the
/// circumpolar classification is read off the extrema.
#[derive(Debug, Copy, Clone, PartialEq, Eq, Structural)]
pub struct DayTransitions {
    pub rise: Option<AltitudeSample>,
    pub set: Option<AltitudeSample>,
    pub mc: Option<AltitudeSample>,
    pub ic: Option<AltitudeSample>,
}

/// The whole outcome of one scanned day as a function of the inputs
/// alone: the crossings chosen by spec_rise_choice / spec_set_choice,
/// interpolated between their bracketing samples, and the first samples
/// attaining the day's extrema when the filter asks for them.
pub open spec fn spec_scan_day(
    jd_start: int,
    step: int,
    alts: Seq<i64>,
    d: int,
    filter: TransitionFilter,
) -> DayTransitions {
    DayTransitions {
        rise: spec_opt_crossing(jd_start, step, alts, d, spec_rise_choice(alts, d, filter), true),
        set: spec_opt_crossing(jd_start, step, alts, d, spec_set_choice(alts, d, filter), false),
        mc: if filter.spec_match_mc() {
            Some(spec_extremum_sample(jd_start, step, alts, peak_upto(alts, alts.len()), true))
        } else {
            None
        },
        ic: if filter.spec_match_ic() {
            Some(spec_extremum_sample(jd_start, step, alts, trough_upto(alts, alts.len()), false))
        } else {
            None
        },
    }
}

/// Scan one day of altitude samples for the requested transit events.
///
/// The caller supplies the altitude (micro-degrees) of the body at each
/// instant jd_start + k * step_secs, as evaluated by the ephemeris on
/// the schedule of scan_points; disc_offset raises the rise test and
/// lowers the set test so that those events mean limb contact for
/// bodies with an apparent disc, and is zero for point-like bodies.
///
/// The result equals spec_scan_day, a pure function of the arguments:
/// the scan has no hidden state, so identical inputs always give
/// identical outputs.
pub fn calc_transposed_object_transitions(
    jd_start: i64,
    step_secs: i64,
    alts: &Vec<i64>,
    disc_offset: i64,
    filter: TransitionFilter,
) -> (r: DayTransitions)
    requires
        0 <= jd_start <= MAX_TIME - 3 * SECS_PER_DAY,
        1 <= step_secs <= SECS_PER_DAY,
        1 <= alts@.len(),
        (alts@.len() - 1) * step_secs <= 2 * SECS_PER_DAY,
        alts_bounded(alts@),
        0 <= disc_offset <= MAX_DISC,
    ensures
        r.rise == spec_opt_crossing(
            jd_start as int,
            step_secs as int,
            alts@,
            disc_offset as int,
            spec_rise_choice(alts@, disc_offset as int, filter),
            true,
        ),
        r.set == spec_opt_crossing(
            jd_start as int,
            step_secs as int,
            alts@,
            disc_offset as int,
            spec_set_choice(alts@, disc_offset as int, filter),
            false,
        ),
        r.mc == if filter.spec_match_mc() {
            Some(
                spec_extremum_sample(
                    jd_start as int,
                    step_secs as int,
                    alts@,
                    peak_upto(alts@, alts@.len()),
                    true,
                ),
            )
        } else {
            None::<AltitudeSample>
        },
        r.ic == if filter.spec_match_ic() {
            Some(
                spec_extremum_sample(
                    jd_start as int,
                    step_secs as int,
                    alts@,
                    trough_upto(alts@, alts@.len()),
                    false,
                ),
            )
        } else {
            None::<AltitudeSample>
        },
        r == spec_scan_day(
            jd_start as int,
            step_secs as int,
            alts@,
            disc_offset as int,
            filter,
        ),
{
    let d = disc_offset;
    let rise_idx: Option<usize> = if filter.match_rise() {
        if matches!(filter, TransitionFilter::Rise) {
            find_first_rise(alts, d)
        } else {
            find_last_rise(alts, d)
        }
    } else {
        None
    };
    let set_idx: Option<usize> = if filter.match_set() {
        if matches!(filter, TransitionFilter::Setting) {
            find_first_set(alts, d)
        } else {
            find_last_set(alts, d)
        }
    } else {
        None
    };
    proof {
        lemma_first_rise_is_cross(alts@, d as int, 0);
        lemma_first_set_is_cross(alts@, d as int, 0);
        lemma_last_rise_is_cross(alts@, d as int, alts@.len());
        lemma_last_set_is_cross(alts@, d as int, alts@.len());
    }
    let rise = match rise_idx {
        Some(i) => Some(make_crossing(jd_start, step_secs, alts, d, i, true)),
        None => None,
    };
    let set = match set_idx {
        Some(i) => Some(make_crossing(jd_start, step_secs, alts, d, i, false)),
        None => None,
    };
    let mc = if filter.match_mc() {
        proof {
            lemma_peak_upto(alts@, alts@.len());
        }
        let p = find_peak(alts);
        Some(make_extremum(jd_start, step_secs, alts, p, true))
    } else {
        None
    };
    let ic = if filter.match_ic() {
        proof {
            lemma_trough_upto(alts@, alts@.len());
        }
        let p = find_trough(alts);
        Some(make_extremum(jd_start, step_secs, alts, p, false))
    } else {
        None
    };
    DayTransitions { rise, set, mc, ic }
}

/// A found first rising index really is a rising crossing.
proof fn lemma_first_rise_is_cross(alts: Seq<i64>, d: int, i: nat)
    ensures
        first_rise_from(alts, d, i) matches Some(j) ==> rise_cross_at(alts, d, j),
    decreases alts.len() - i,
{
    if i < alts.len() && !rise_cross_at(alts, d, i as int) {
        lemma_first_rise_is_cross(alts, d, i + 1);
    }
}

/// A found first setting index really is a setting crossing.
proof fn lemma_first_set_is_cross(alts: Seq<i64>, d: int, i: nat)
    ensures
        first_set_from(alts, d, i) matches Some(j) ==> set_cross_at(alts, d, j),
    decreases alts.len() - i,
{
    if i < alts.len() && !set_cross_at(alts, d, i as int) {
        lemma_first_set_is_cross(alts, d, i + 1);
    }
}

/// A found last rising index really is a rising crossing.
proof fn lemma_last_rise_is_cross(alts: Seq<i64>, d: int, n: nat)
    ensures
        last_rise_before(alts, d, n) matches Some(j) ==> rise_cross_at(alts, d, j),
    decreases n,
{
    if n > 1 && !rise_cross_at(alts, d, n - 1) {
        lemma_last_rise_is_cross(alts, d, (n - 1) as nat);
    }
}

/// A found last setting index really is a setting crossing.
proof fn lemma_last_set_is_cross(alts: Seq<i64>, d: int, n: nat)
    ensures
        last_set_before(alts, d, n) matches Some(j) ==> set_cross_at(alts, d, j),
    decreases n,
{
    if n > 1 && !set_cross_at(alts, d, n - 1) {
        lemma_last_set_is_cross(alts, d, (n - 1) as nat);
    }
}

/// Index of the first sample attaining the day's minimum altitude.
fn find_trough(alts: &Vec<i64>) -> (r: usize)
    requires
        alts@.len() >= 1,
    ensures
        r as int == trough_upto(alts@, alts@.len()),
{
    let n = alts.len();
    let mut best: usize = 0;
    let mut i: usize = 1;
    while i < n
        invariant
            1 <= i <= n,
            n == alts@.len(),
            0 <= best < i,
            best as int == trough_upto(alts@, i as nat),
        decreases n - i,
    {
        if alts[i] < alts[best] {
            best = i;
        }
        i = i + 1;
    }
    best
}

/// Spacing (seconds) of the dense resampling pass around a culmination
/// candidate: a quarter of a minute.
pub const REFINE_STEP_SECS: i64 = 15;

/// Number of samples in the refinement window around a culmination
/// candidate found with the given coarse step: the window spans one
/// coarse step to either side at quarter-minute resolution.
pub open spec fn spec_refine_len(step_secs: int) -> int {
    2 * step_secs / (REFINE_STEP_SECS as int) + 1
}

/// The schedule of instants for the dense resampling pass around a
/// culmination candidate: one coarse step to either side of it, every
/// quarter minute. The caller evaluates the altitude at each instant
/// and hands the values to recalc_min_max_transit_sample.
pub fn refinement_times(center_jd: i64, step_secs: i64) -> (r: Vec<i64>)
    requires
        REFINE_STEP_SECS <= step_secs <= SECS_PER_DAY,
        step_secs <= center_jd,
        center_jd + step_secs <= MAX_TIME,
    ensures
        r@.len() == spec_refine_len(step_secs as int),
        forall|k: int|
            0 <= k < r@.len() ==> #[trigger] r@[k] == center_jd - step_secs + k * (
            REFINE_STEP_SECS as int),
{
    proof {
        let q = 2 * step_secs as int / (REFINE_STEP_SECS as int);
        let rem = 2 * step_secs as int % (REFINE_STEP_SECS as int);
        vstd::arithmetic::div_mod::lemma_fundamental_div_mod(
            2 * step_secs as int,
            REFINE_STEP_SECS as int,
        );
        lemma_quotient_bounds(2 * step_secs as int, REFINE_STEP_SECS as int, q, rem);
    }
    let count = 2 * step_secs / REFINE_STEP_SECS + 1;
    let mut r: Vec<i64> = Vec::new();
    let mut k: i64 = 0;
    let mut t: i64 = center_jd - step_secs;
    while k < count
        invariant
            0 <= k <= count,
            count == spec_refine_len(step_secs as int),
            count <= 2 * step_secs + 1,
            (count - 1) * (REFINE_STEP_SECS as int) <= 2 * step_secs,
            REFINE_STEP_SECS <= step_secs <= SECS_PER_DAY,
            step_secs <= center_jd,
            center_jd + step_secs <= MAX_TIME,
            t == center_jd - step_secs + k * REFINE_STEP_SECS,
            r@.len() == k,
            forall|j: int|
                0 <= j < k ==> #[trigger] r@[j] == center_jd - step_secs + j * (
                REFINE_STEP_SECS as int),
        decreases count - k,
    {
        proof {
            vstd::arithmetic::mul::lemma_mul_inequality(
                k as int,
                count - 1,
                REFINE_STEP_SECS as int,
            );
            assert((count - 1) * (REFINE_STEP_SECS as int) <= 2 * step_secs);
            assert(k * (REFINE_STEP_SECS as int) >= 0) by (nonlinear_arith)
                requires
                    k >= 0,
            ;
            assert((k + 1) * (REFINE_STEP_SECS as int) == k * (REFINE_STEP_SECS as int)
                + REFINE_STEP_SECS) by (nonlinear_arith);
        }
        r.push(t);
        k = k + 1;
        t = t + REFINE_STEP_SECS;
    }
    r
}

/// One candidate of the refinement pass: the k-th dense sample around
/// the coarse culmination, relabelled for its extremum kind.
pub open spec fn spec_refine_candidate(
    center_jd: int,
    center_off: int,
    alts: Seq<i64>,
    k: int,
    max_mode: bool,
) -> AltitudeSample {
    AltitudeSample {
        mode: if max_mode {
            SampleMode::Mc
        } else {
            SampleMode::Ic
        },
        offset_secs: (center_off + k * (REFINE_STEP_SECS as int)) as i64,
        jd: (center_jd + k * (REFINE_STEP_SECS as int)) as i64,
        value: alts[k],
    }
}

/// The refinement fold over the first n dense samples: starting from the
/// coarse sample, each candidate replaces the best seen so far only when
/// strictly better for the extremum kind, so the first occurrence of the
/// best value wins. The candidate offsets are relative to the window
/// start handed in as center_jd / center_off.
pub open spec fn spec_refined(
    sample: AltitudeSample,
    window_jd: int,
    window_off: int,
    alts: Seq<i64>,
    n: nat,
    max_mode: bool,
) -> AltitudeSample
    decreases n,
{
    if n == 0 {
        sample
    } else {
        let b = spec_refined(sample, window_jd, window_off, alts, (n - 1) as nat, max_mode);
        let c = spec_refine_candidate(window_jd, window_off, alts, n - 1, max_mode);
        if (max_mode && c.value > b.value) || (!max_mode && c.value < b.value) {
            c
        } else {
            b
        }
    }
}

/// Refine a culmination candidate against the dense window resampled on
/// the schedule of refinement_times: keep the coarse sample unless a
/// dense sample is strictly better for the extremum kind, and then keep
/// the first such best sample. The result is the exact fold
/// spec_refined over the window.
pub fn recalc_min_max_transit_sample(
    sample: AltitudeSample,
    step_secs: i64,
    alts: &Vec<i64>,
    max_mode: bool,
) -> (r: AltitudeSample)
    requires
        REFINE_STEP_SECS <= step_secs <= SECS_PER_DAY,
        step_secs <= sample.jd,
        sample.jd + step_secs <= MAX_TIME,
        -MAX_TIME <= sample.offset_secs - step_secs,
        sample.offset_secs + step_secs <= MAX_TIME,
        alts@.len() == spec_refine_len(step_secs as int),
        alts_bounded(alts@),
    ensures
        r == spec_refined(
            sample,
            sample.jd - step_secs,
            sample.offset_secs - step_secs,
            alts@,
            alts@.len(),
            max_mode,
        ),
{
    let ghost window_jd = sample.jd - step_secs as int;
    let ghost window_off = sample.offset_secs - step_secs as int;
    let n = alts.len();
    proof {
        let q = 2 * step_secs as int / (REFINE_STEP_SECS as int);
        let rem = 2 * step_secs as int % (REFINE_STEP_SECS as int);
        vstd::arithmetic::div_mod::lemma_fundamental_div_mod(
            2 * step_secs as int,
            REFINE_STEP_SECS as int,
        );
        lemma_quotient_bounds(2 * step_secs as int, REFINE_STEP_SECS as int, q, rem);
    }
    let start_jd = sample.jd - step_secs;
    let start_off = sample.offset_secs - step_secs;
    let mut best = sample;
    let mut k: usize = 0;
    let mut jd: i64 = start_jd;
    let mut off: i64 = start_off;
    while k < n
        invariant
            0 <= k <= n,
            n == alts@.len(),
            n <= 2 * step_secs + 1,
            (n as int - 1) * (REFINE_STEP_SECS as int) <= 2 * step_secs,
            REFINE_STEP_SECS <= step_secs <= SECS_PER_DAY,
            step_secs <= sample.jd,
            sample.jd + step_secs <= MAX_TIME,
            -MAX_TIME <= sample.offset_secs - step_secs,
            sample.offset_secs + step_secs <= MAX_TIME,
            alts_bounded(alts@),
            window_jd == sample.jd - step_secs,
            window_off == sample.offset_secs - step_secs,
            jd == window_jd + k * (REFINE_STEP_SECS as int),
            off == window_off + k * (REFINE_STEP_SECS as int),
            best == spec_refined(sample, window_jd, window_off, alts@, k as nat, max_mode),
        decreases n - k,
    {
        proof {
            vstd::arithmetic::mul::lemma_mul_inequality(
                k as int,
                n as int - 1,
                REFINE_STEP_SECS as int,
            );
            assert((n as int - 1) * (REFINE_STEP_SECS as int) <= 2 * step_secs);
            assert(k * (REFINE_STEP_SECS as int) >= 0) by (nonlinear_arith)
                requires
                    k >= 0,
            ;
            assert((k + 1) * (REFINE_STEP_SECS as int) == k * (REFINE_STEP_SECS as int)
                + REFINE_STEP_SECS) by (nonlinear_arith);
        }
        let mode = if max_mode {
            SampleMode::Mc
        } else {
            SampleMode::Ic
        };
        let cand = AltitudeSample { mode, offset_secs: off, jd, value: alts[k] };
        if (max_mode && cand.value > best.value) || (!max_mode && cand.value < best.value) {
            best = cand;
        }
        k = k + 1;
        jd = jd + REFINE_STEP_SECS;
        off = off + REFINE_STEP_SECS;
    }
    best
}

impl DayTransitions {
    /// The day flattened to the four-event set with its extreme
    /// altitudes, for the polar-latitude path: the minimum is the lower
    /// culmination's altitude and the maximum the upper one's.
    pub fn to_alt_transition_set(&self) -> (r: crate::transitions::AltTransitionSet)
        requires
            self.mc is Some,
            self.ic is Some,
        ensures
            r.min == self.ic->0.value,
            r.max == self.mc->0.value,
            r.mc == Some(self.mc->0.jd),
            r.ic == Some(self.ic->0.jd),
            r.rise == match self.rise {
                Some(s) => Some(s.jd),
                None => None::<i64>,
            },
            r.set == match self.set {
                Some(s) => Some(s.jd),
                None => None::<i64>,
            },
    {
        crate::transitions::AltTransitionSet {
            min: self.ic.as_ref().unwrap().value,
            rise: match self.rise {
                Some(s) => Some(s.jd),
                None => None,
            },
            mc: Some(self.mc.as_ref().unwrap().jd),
            set: match self.set {
                Some(s) => Some(s.jd),
                None => None,
            },
            ic: Some(self.ic.as_ref().unwrap().jd),
            max: self.mc.as_ref().unwrap().value,
        }
    }

    /// The day flattened to the four transit instants alone.
    pub fn to_transition_set(&self) -> (r: crate::transitions::TransitionSet)
        ensures
            r.rise == match self.rise {
                Some(s) => Some(s.jd),
                None => None::<i64>,
            },
            r.set == match self.set {
                Some(s) => Some(s.jd),
                None => None::<i64>,
            },
            r.mc == match self.mc {
                Some(s) => Some(s.jd),
                None => None::<i64>,
            },
            r.ic == match self.ic {
                Some(s) => Some(s.jd),
                None => None::<i64>,
            },
    {
        crate::transitions::TransitionSet {
            rise: match self.rise {
                Some(s) => Some(s.jd),
                None => None,
            },
            mc: match self.mc {
                Some(s) => Some(s.jd),
                None => None,
            },
            set: match self.set {
                Some(s) => Some(s.jd),
                None => None,
            },
            ic: match self.ic {
                Some(s) => Some(s.jd),
                None => None,
            },
        }
    }

    /// The day's events in the fixed order rise, set, mc, ic, an absent
    /// event standing as its labelled placeholder at time zero.
    pub fn to_samples(&self) -> (r: Vec<AltitudeSample>)
        ensures
            r@.len() == 4,
            r@[0] == match self.rise {
                Some(s) => s,
                None => AltitudeSample {
                    mode: SampleMode::Rise,
                    offset_secs: 0i64,
                    jd: 0i64,
                    value: 0i64,
                },
            },
            r@[1] == match self.set {
                Some(s) => s,
                None => AltitudeSample {
                    mode: SampleMode::Setting,
                    offset_secs: 0i64,
                    jd: 0i64,
                    value: 0i64,
                },
            },
            r@[2] == match self.mc {
                Some(s) => s,
                None => AltitudeSample {
                    mode: SampleMode::Mc,
                    offset_secs: 0i64,
                    jd: 0i64,
                    value: 0i64,
                },
            },
            r@[3] == match self.ic {
                Some(s) => s,
                None => AltitudeSample {
                    mode: SampleMode::Ic,
                    offset_secs: 0i64,
                    jd: 0i64,
                    value: 0i64,
                },
            },
    {
        let mut r: Vec<AltitudeSample> = Vec::new();
        r.push(
            match self.rise {
                Some(s) => s,
                None => AltitudeSample::basic(SampleMode::Rise),
            },
        );
        r.push(
            match self.set {
                Some(s) => s,
                None => AltitudeSample::basic(SampleMode::Setting),
            },
        );
        r.push(
            match self.mc {
                Some(s) => s,
                None => AltitudeSample::basic(SampleMode::Mc),
            },
        );
        r.push(
            match self.ic {
                Some(s) => s,
                None => AltitudeSample::basic(SampleMode::Ic),
            },
        );
        r
    }

    /// The day's events flattened to labelled instants, in the order
    /// rise, set, mc, ic, an absent event carrying the time zero the
    /// report layer later drops.
    pub fn to_key_nums(&self) -> (r: Vec<crate::general::KeyNumValue>)
        ensures
            r@.len() == 4,
            r@[0].key@ == "rise"@,
            r@[1].key@ == "set"@,
            r@[2].key@ == "mc"@,
            r@[3].key@ == "ic"@,
            r@[0].value == match self.rise {
                Some(s) => s.jd,
                None => 0i64,
            },
            r@[1].value == match self.set {
                Some(s) => s.jd,
                None => 0i64,
            },
            r@[2].value == match self.mc {
                Some(s) => s.jd,
                None => 0i64,
            },
            r@[3].value == match self.ic {
                Some(s) => s.jd,
                None => 0i64,
            },
    {
        let mut r: Vec<crate::general::KeyNumValue> = Vec::new();
        r.push(
            crate::general::KeyNumValue::new(
                "rise",
                match self.rise {
                    Some(s) => s.jd,
                    None => 0,
                },
            ),
        );
        r.push(
            crate::general::KeyNumValue::new(
                "set",
                match self.set {
                    Some(s) => s.jd,
                    None => 0,
                },
            ),
        );
        r.push(
            crate::general::KeyNumValue::new(
                "mc",
                match self.mc {
                    Some(s) => s.jd,
                    None => 0,
                },
            ),
        );
        r.push(
            crate::general::KeyNumValue::new(
                "ic",
                match self.ic {
                    Some(s) => s.jd,
                    None => 0,
                },
            ),
        );
        r
    }
}

/// The refined upper culmination carries the greatest altitude seen:
/// no coarse candidate and no dense window sample exceeds it, and its
/// value is one of them. Together with lemma_peak_upto this pins the
/// reported maximum to the true maximum of every altitude evaluated.
pub proof fn lemma_refined_max(
    sample: AltitudeSample,
    window_jd: int,
    window_off: int,
    alts: Seq<i64>,
    n: nat,
)
    requires
        n <= alts.len(),
    ensures
        spec_refined(sample, window_jd, window_off, alts, n, true).value >= sample.value,
        forall|k: int|
            0 <= k < n ==> #[trigger] alts[k] <= spec_refined(
                sample,
                window_jd,
                window_off,
                alts,
                n,
                true,
            ).value,
        spec_refined(sample, window_jd, window_off, alts, n, true) == sample || exists|k: int|
            0 <= k < n && #[trigger] alts[k] == spec_refined(
                sample,
                window_jd,
                window_off,
                alts,
                n,
                true,
            ).value,
    decreases n,
{
    if n > 0 {
        lemma_refined_max(sample, window_jd, window_off, alts, (n - 1) as nat);
    }
}

/// The refined lower culmination carries the least altitude seen,
/// symmetric to lemma_refined_max.
pub proof fn lemma_refined_min(
    sample: AltitudeSample,
    window_jd: int,
    window_off: int,
    alts: Seq<i64>,
    n: nat,
)
    requires
        n <= alts.len(),
    ensures
        spec_refined(sample, window_jd, window_off, alts, n, false).value <= sample.value,
        forall|k: int|
            0 <= k < n ==> #[trigger] alts[k] >= spec_refined(
                sample,
                window_jd,
                window_off,
                alts,
                n,
                false,
            ).value,
        spec_refined(sample, window_jd, window_off, alts, n, false) == sample || exists|k: int|
            0 <= k < n && #[trigger] alts[k] == spec_refined(
                sample,
                window_jd,
                window_off,
                alts,
                n,
                false,
            ).value,
    decreases n,
{
    if n > 0 {
        lemma_refined_min(sample, window_jd, window_off, alts, (n - 1) as nat);
    }
}

/// On a day whose lowest sample never drops below the horizon, a
/// point-like body has no setting crossing and no rising crossing: the
/// scan reports neither event, whatever the filter, rather than a
/// spurious crossing. This is the classification-consistency law for
/// the always-up case; always-down is its mirror through negation.
pub proof fn lemma_always_up_day_has_no_crossing(alts: Seq<i64>, filter: TransitionFilter)
    requires
        1 <= alts.len(),
        alts[trough_upto(alts, alts.len())] >= 0,
    ensures
        spec_set_choice(alts, 0, filter) == None::<int>,
        spec_rise_choice(alts, 0, filter) == None::<int>,
        spec_scan_day(0, 1, alts, 0, filter).set == None::<AltitudeSample>,
        spec_scan_day(0, 1, alts, 0, filter).rise == None::<AltitudeSample>,
{
    lemma_trough_upto(alts, alts.len());
    assert(forall|k: int| 0 <= k < alts.len() ==> #[trigger] alts[k] >= 0);
    lemma_no_cross_when_nonnegative(alts, alts.len());
    lemma_no_first_cross_when_nonnegative(alts, 0);
}

/// On a day whose highest sample never tops the horizon, a point-like
/// body has no crossing either way: the mirror of the always-up case.
pub proof fn lemma_always_down_day_has_no_crossing(alts: Seq<i64>, filter: TransitionFilter)
    requires
        1 <= alts.len(),
        alts[peak_upto(alts, alts.len())] <= 0,
    ensures
        spec_set_choice(alts, 0, filter) == None::<int>,
        spec_rise_choice(alts, 0, filter) == None::<int>,
        spec_scan_day(0, 1, alts, 0, filter).set == None::<AltitudeSample>,
        spec_scan_day(0, 1, alts, 0, filter).rise == None::<AltitudeSample>,
{
    lemma_peak_upto(alts, alts.len());
    assert(forall|k: int| 0 <= k < alts.len() ==> #[trigger] alts[k] <= 0);
    lemma_no_cross_when_nonpositive(alts, alts.len());
    lemma_no_first_cross_when_nonpositive(alts, 0);
}

/// No prefix bound admits a crossing when every sample is nonpositive.
proof fn lemma_no_cross_when_nonpositive(alts: Seq<i64>, n: nat)
    requires
        n <= alts.len(),
        forall|k: int| 0 <= k < alts.len() ==> #[trigger] alts[k] <= 0,
    ensures
        last_set_before(alts, 0, n) == None::<int>,
        last_rise_before(alts, 0, n) == None::<int>,
    decreases n,
{
    if n > 1 {
        lemma_no_cross_when_nonpositive(alts, (n - 1) as nat);
    }
}

/// No forward search finds a crossing when every sample is nonpositive.
proof fn lemma_no_first_cross_when_nonpositive(alts: Seq<i64>, i: nat)
    requires
        forall|k: int| 0 <= k < alts.len() ==> #[trigger] alts[k] <= 0,
    ensures
        first_set_from(alts, 0, i) == None::<int>,
        first_rise_from(alts, 0, i) == None::<int>,
    decreases alts.len() - i,
{
    if i < alts.len() {
        lemma_no_first_cross_when_nonpositive(alts, i + 1);
    }
}

/// No prefix bound admits a crossing when every sample is nonnegative.
proof fn lemma_no_cross_when_nonnegative(alts: Seq<i64>, n: nat)
    requires
        n <= alts.len(),
        forall|k: int| 0 <= k < alts.len() ==> #[trigger] alts[k] >= 0,
    ensures
        last_set_before(alts, 0, n) == None::<int>,
        last_rise_before(alts, 0, n) == None::<int>,
    decreases n,
{
    if n > 1 {
        lemma_no_cross_when_nonnegative(alts, (n - 1) as nat);
    }
}

/// No forward search finds a crossing when every sample is nonnegative.
proof fn lemma_no_first_cross_when_nonnegative(alts: Seq<i64>, i: nat)
    requires
        forall|k: int| 0 <= k < alts.len() ==> #[trigger] alts[k] >= 0,
    ensures
        first_set_from(alts, 0, i) == None::<int>,
        first_rise_from(alts, 0, i) == None::<int>,
    decreases alts.len() - i,
{
    if i < alts.len() {
        lemma_no_first_cross_when_nonnegative(alts, i + 1);
    }
}

/// When index i is the only crossing of its kind, every search variant
/// reports it.
proof fn lemma_unique_rise_found(alts: Seq<i64>, d: int, i: int, lo: nat, n: nat)
    requires
        rise_cross_at(alts, d, i),
        forall|k: int| 1 <= k < alts.len() && k != i ==> !rise_cross_at(alts, d, k),
        lo <= i,
        i < n <= alts.len(),
    ensures
        first_rise_from(alts, d, lo) == Some(i),
        last_rise_before(alts, d, n) == Some(i),
    decreases alts.len() - lo, n,
{
    if (lo as int) < i {
        lemma_unique_rise_found(alts, d, i, lo + 1, n);
    }
    if i < n - 1 {
        lemma_unique_rise_found(alts, d, i, lo, (n - 1) as nat);
    }
}

/// When index i is the only setting crossing, every search variant
/// reports it.
proof fn lemma_unique_set_found(alts: Seq<i64>, d: int, i: int, lo: nat, n: nat)
    requires
        set_cross_at(alts, d, i),
        forall|k: int| 1 <= k < alts.len() && k != i ==> !set_cross_at(alts, d, k),
        lo <= i,
        i < n <= alts.len(),
    ensures
        first_set_from(alts, d, lo) == Some(i),
        last_set_before(alts, d, n) == Some(i),
    decreases alts.len() - lo, n,
{
    if (lo as int) < i {
        lemma_unique_set_found(alts, d, i, lo + 1, n);
    }
    if i < n - 1 {
        lemma_unique_set_found(alts, d, i, lo, (n - 1) as nat);
    }
}

/// The ordering law for an ordinary day: when the sampled altitudes of a
/// point-like body are above the horizon exactly on the contiguous block
/// [i_r, i_s) of the day, the scan's rise does not follow its upper
/// culmination, the upper culmination strictly precedes its set, the
/// rise strictly precedes the set, and the lower culmination falls
/// outside the above-horizon span: it strictly precedes the rise or does
/// not precede the set, and never both.
pub proof fn lemma_transit_order(
    jd_start: int,
    step: int,
    alts: Seq<i64>,
    filter: TransitionFilter,
    i_r: int,
    i_s: int,
)
    requires
        1 <= step,
        0 <= jd_start,
        jd_start + alts.len() * step <= MAX_TIME,
        alts_bounded(alts),
        2 <= alts.len(),
        1 <= i_r < i_s < alts.len(),
        forall|k: int| 0 <= k < alts.len() ==> (i_r <= k < i_s <==> #[trigger] alts[k] > 0),
        forall|k: int| 0 <= k < alts.len() && !(i_r <= k < i_s) ==> #[trigger] alts[k] < 0,
        filter.spec_match_rise(),
        filter.spec_match_set(),
    ensures
        spec_rise_choice(alts, 0, filter) == Some(i_r),
        spec_set_choice(alts, 0, filter) == Some(i_s),
        ({
            let day = spec_scan_day(jd_start, step, alts, 0, filter);
            let rise_jd = day.rise.unwrap().jd as int;
            let set_jd = day.set.unwrap().jd as int;
            let mc_jd = jd_start + peak_upto(alts, alts.len()) * step;
            let ic_jd = jd_start + trough_upto(alts, alts.len()) * step;
            &&& rise_jd < set_jd
            &&& rise_jd <= mc_jd
            &&& mc_jd < set_jd
            &&& (ic_jd < rise_jd || ic_jd >= set_jd)
            &&& !(ic_jd < rise_jd && ic_jd >= set_jd)
        }),
{
    assert forall|k: int| 1 <= k < alts.len() && k != i_r implies !rise_cross_at(alts, 0, k) by {
        if rise_cross_at(alts, 0, k) {
            assert(alts[k - 1] < 0 && alts[k] > 0);
            assert(i_r <= k < i_s);
            assert(!(i_r <= k - 1 < i_s));
        }
    }
    assert forall|k: int| 1 <= k < alts.len() && k != i_s implies !set_cross_at(alts, 0, k) by {
        if set_cross_at(alts, 0, k) {
            assert(alts[k - 1] > 0 && alts[k] < 0);
            assert(i_r <= k - 1 < i_s);
            assert(!(i_r <= k < i_s));
        }
    }
    assert(rise_cross_at(alts, 0, i_r));
    assert(set_cross_at(alts, 0, i_s));
    lemma_unique_rise_found(alts, 0, i_r, 0, alts.len());
    lemma_unique_set_found(alts, 0, i_s, 0, alts.len());
    let p = peak_upto(alts, alts.len());
    let q = trough_upto(alts, alts.len());
    lemma_peak_upto(alts, alts.len());
    lemma_trough_upto(alts, alts.len());
    assert(alts[p] >= alts[i_r]);
    assert(i_r <= p < i_s);
    assert(alts[q] <= alts[0]);
    assert(!(i_r <= q < i_s));
    let day = spec_scan_day(jd_start, step, alts, 0, filter);
    let t_prev_r = jd_start + (i_r - 1) * step;
    let t_r = jd_start + i_r * step;
    let t_prev_s = jd_start + (i_s - 1) * step;
    let t_s = jd_start + i_s * step;
    lemma_sample_times_ordered(jd_start, step, 0, i_r - 1);
    lemma_sample_times_ordered(jd_start, step, i_r, alts.len() as int);
    lemma_sample_times_ordered(jd_start, step, i_s, alts.len() as int);
    lemma_crossing_time_in_bracket(jd_start, step, alts, i_r, true);
    lemma_crossing_time_in_bracket(jd_start, step, alts, i_s, false);
    let rise_jd = day.rise.unwrap().jd as int;
    let set_jd = day.set.unwrap().jd as int;
    lemma_sample_times_ordered(jd_start, step, i_r, p);
    lemma_sample_times_ordered(jd_start, step, p, i_s - 1);
    lemma_sample_times_ordered(jd_start, step, i_r, i_s - 1);
    if q < i_r {
        lemma_sample_times_ordered(jd_start, step, q, i_r - 1);
    } else {
        lemma_sample_times_ordered(jd_start, step, i_s, q);
    }
}

/// Sample instants grow with the index.
proof fn lemma_sample_times_ordered(jd_start: int, step: int, i: int, j: int)
    requires
        1 <= step,
        i <= j,
    ensures
        jd_start + i * step <= jd_start + j * step,
{
    vstd::arithmetic::mul::lemma_mul_inequality(i, j, step);
}

/// The interpolation law for a reported crossing: the instant the scan
/// records for a rise or set lies strictly after the last sample on the
/// wrong side of the horizon and not after the first sample on the
/// right side — the crossing is pinned inside its bracketing pair, on
/// the zero of the straight line between their adjusted altitudes.
pub proof fn lemma_crossing_time_in_bracket(
    jd_start: int,
    step: int,
    alts: Seq<i64>,
    i: int,
    rising: bool,
)
    requires
        1 <= step,
        0 <= jd_start + (i - 1) * step,
        jd_start + i * step <= MAX_TIME,
        if rising {
            rise_cross_at(alts, 0, i)
        } else {
            set_cross_at(alts, 0, i)
        },
        -MAX_ALT <= alts[i - 1] <= MAX_ALT,
        -MAX_ALT <= alts[i] <= MAX_ALT,
    ensures
        jd_start + (i - 1) * step < spec_crossing_sample(jd_start, step, alts, 0, i, rising).jd
            as int <= jd_start + i * step,
{
    let t1 = jd_start + (i - 1) * step;
    let t2 = jd_start + i * step;
    let v2 = if rising {
        alts[i] as int
    } else {
        alts[i] as int
    };
    let v1 = alts[i - 1] as int;
    assert(t2 - t1 == step) by {
        assert(i * step == (i - 1) * step + step) by (nonlinear_arith);
    }
    if rising {
        lemma_interp_delta_bounds(t2 - t1, v2, v2 - v1);
    } else {
        lemma_interp_delta_bounds(t2 - t1, -v2, v1 - v2);
    }
}

} // verus!
