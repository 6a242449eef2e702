//! Small labelled-value records in which transit results are handed to
//! callers: keyed numbers, keyed strings, and the mixed sets used by the
//! report-shaping layer.
use vstd::prelude::*;

verus! {

/// A labelled number: a time value or an altitude under a short key.
#[derive(Debug, Clone)]
pub struct KeyNumValue {
    pub key: String,
    pub value: i64,
}

impl KeyNumValue {
    pub fn new(key: &str, value: i64) -> (r: KeyNumValue)
        ensures
            r.key@ == key@,
            r.value == value,
    {
        KeyNumValue { key: key.to_owned(), value }
    }

    /// The value read as an instant and rendered as an ISO date-time
    /// string, empty when it lies outside the civil calendar's range.
    pub fn as_iso_string(&self) -> (r: KeyStringValue)
        ensures
            r.key@ == self.key@,
            r.value@ == crate::transitions::spec_opt_iso_chars(Some(self.value)),
    {
        KeyStringValue {
            key: self.key.clone(),
            value: crate::transitions::iso_or_empty(Some(self.value)),
        }
    }
}

/// A labelled string, most often a formatted date-time.
#[derive(Debug, Clone)]
pub struct KeyStringValue {
    pub key: String,
    pub value: String,
}

impl KeyStringValue {
    pub fn new(key: &str, value: &str) -> (r: KeyStringValue)
        ensures
            r.key@ == key@,
            r.value@ == value@,
    {
        KeyStringValue { key: key.to_owned(), value: value.to_owned() }
    }
}

/// A group of labelled strings under one key.
#[derive(Debug, Clone)]
pub struct KeyStringValueSet {
    pub key: String,
    pub items: Vec<KeyStringValue>,
}

impl KeyStringValueSet {
    pub fn new(key: &str, items: Vec<KeyStringValue>) -> (r: KeyStringValueSet)
        ensures
            r.key@ == key@,
            r.items == items,
    {
        KeyStringValueSet { key: key.to_owned(), items }
    }
}

/// A group of labelled numbers under one key, most often the transit
/// events of one body.
#[derive(Debug, Clone)]
pub struct KeyNumValueSet {
    pub key: String,
    pub items: Vec<KeyNumValue>,
}

impl KeyNumValueSet {
    pub fn new(key: &str, items: Vec<KeyNumValue>) -> (r: KeyNumValueSet)
        ensures
            r.key@ == key@,
            r.items == items,
    {
        KeyNumValueSet { key: key.to_owned(), items }
    }

    /// Every item rendered as an ISO date-time string.
    pub fn as_iso_strings(&self) -> (r: KeyStringValueSet)
        ensures
            r.key@ == self.key@,
            r.items@.len() == self.items@.len(),
            forall|i: int|
                0 <= i < r.items@.len() ==> (#[trigger] r.items@[i]).key@ == self.items@[i].key@
                    && r.items@[i].value@ == crate::transitions::spec_opt_iso_chars(
                    Some(self.items@[i].value),
                ),
    {
        let n = self.items.len();
        let mut out: Vec<KeyStringValue> = Vec::new();
        let mut i: usize = 0;
        while i < n
            invariant
                0 <= i <= n,
                n == self.items@.len(),
                out@.len() == i,
                forall|j: int|
                    0 <= j < i ==> (#[trigger] out@[j]).key@ == self.items@[j].key@
                        && out@[j].value@ == crate::transitions::spec_opt_iso_chars(
                        Some(self.items@[j].value),
                    ),
            decreases n - i,
        {
            out.push(self.items[i].as_iso_string());
            i = i + 1;
        }
        KeyStringValueSet { key: self.key.clone(), items: out }
    }

    /// The items in the mixed value shape: zero-valued entries are
    /// dropped, the extreme altitudes stay numeric, and every other
    /// entry becomes an ISO string in ISO mode.
    pub fn as_flexi_values(&self, iso_mode: bool) -> (r: KeyFlexiValueSet)
        ensures
            r.key@ == self.key@,
            r.items@.len() <= self.items@.len(),
    {
        let n = self.items.len();
        let mut out: Vec<FlexiValue> = Vec::new();
        let mut i: usize = 0;
        while i < n
            invariant
                0 <= i <= n,
                n == self.items@.len(),
                out@.len() <= i,
            decreases n - i,
        {
            let item = &self.items[i];
            if item.value != 0 {
                let is_extreme = crate::converters::str_eq_bytes(item.key.as_str(), "max")
                    || crate::converters::str_eq_bytes(item.key.as_str(), "min");
                if is_extreme || !iso_mode {
                    out.push(FlexiValue::NumValue(item.clone()));
                } else {
                    out.push(FlexiValue::StringValue(item.as_iso_string()));
                }
            }
            i = i + 1;
        }
        KeyFlexiValueSet { key: self.key.clone(), items: out }
    }
}

/// A number under a numeric index.
#[derive(Debug, Clone)]
pub struct NumValue {
    pub num: u16,
    pub value: i64,
}

impl NumValue {
    pub fn new(num: u16, value: i64) -> (r: NumValue)
        ensures
            r.num == num,
            r.value == value,
    {
        NumValue { num, value }
    }
}

/// A group of indexed numbers under a key and an index.
#[derive(Debug, Clone)]
pub struct NumValueKeySet {
    pub num: u16,
    pub key: String,
    pub values: Vec<NumValue>,
}

impl NumValueKeySet {
    pub fn new(num: u16, key: &str, values: Vec<NumValue>) -> (r: NumValueKeySet)
        ensures
            r.num == num,
            r.key@ == key@,
            r.values == values,
    {
        NumValueKeySet { num, key: key.to_owned(), values }
    }
}

/// One progressed sample: the progressed day, its reference time, the
/// body longitudes, and the sidereal offset at that instant.
#[derive(Debug, Clone)]
pub struct ProgressItemSet {
    pub pd: i64,
    pub jd: i64,
    pub bodies: Vec<KeyNumValue>,
    pub ayanamsha: i64,
}

impl ProgressItemSet {
    pub fn new(pd: i64, jd: i64, bodies: Vec<KeyNumValue>, ayanamsha: i64) -> (r: ProgressItemSet)
        ensures
            r.pd == pd,
            r.jd == jd,
            r.bodies == bodies,
            r.ayanamsha == ayanamsha,
    {
        ProgressItemSet { pd, jd, bodies, ayanamsha }
    }
}

/// An ecliptic position in micro-degrees.
#[derive(Debug, Copy, Clone, PartialEq, Eq, Structural)]
pub struct LngLat {
    pub lng: i64,
    pub lat: i64,
}

impl LngLat {
    pub fn new(lng: i64, lat: i64) -> (r: LngLat)
        ensures
            r.lng == lng,
            r.lat == lat,
    {
        LngLat { lng, lat }
    }

    /// The placeholder position used before a real one is known: one
    /// degree below the origin on both axes.
    pub fn empty() -> (r: LngLat)
        ensures
            r.lng == -1_000_000,
            r.lat == -1_000_000,
    {
        LngLat { lng: -1_000_000, lat: -1_000_000 }
    }
}

/// An ecliptic position under a body key.
#[derive(Debug, Clone)]
pub struct LngLatKey {
    pub lng: i64,
    pub lat: i64,
    pub key: String,
}

impl LngLatKey {
    pub fn new(key: &str, lng: i64, lat: i64) -> (r: LngLatKey)
        ensures
            r.key@ == key@,
            r.lng == lng,
            r.lat == lat,
    {
        LngLatKey { key: key.to_owned(), lng, lat }
    }
}

/// Types that expose their ecliptic position.
pub trait ToLngLat {
    fn to_lng_lat(&self) -> LngLat;
}

/// Types that expose their ecliptic position together with their key.
pub trait ToLngLatKey {
    fn to_lng_lat_key(&self) -> LngLatKey;
}

/// A value that is either a labelled number or a labelled string,
/// depending on the output mode a caller asked for.
#[derive(Debug, Clone)]
pub enum FlexiValue {
    NumValue(KeyNumValue),
    StringValue(KeyStringValue),
}

/// A group of mixed values under one key.
#[derive(Debug, Clone)]
pub struct KeyFlexiValueSet {
    pub key: String,
    pub items: Vec<FlexiValue>,
}

impl KeyFlexiValueSet {
    pub fn new(key: &str, items: Vec<FlexiValue>) -> (r: KeyFlexiValueSet)
        ensures
            r.key@ == key@,
            r.items == items,
    {
        KeyFlexiValueSet { key: key.to_owned(), items }
    }
}

/// A whole result list in one of the three value shapes.
#[derive(Debug, Clone)]
pub enum FlexiValueSet {
    NumValues(Vec<KeyNumValueSet>),
    StringValues(Vec<KeyStringValueSet>),
    FlexiValues(Vec<KeyFlexiValueSet>),
}

} // verus!
