//! Key-string utilities: normalising and comparing short keys,
//! splitting comma-separated key lists, and reading coordinates.
use vstd::prelude::*;

use crate::geo_pos::GeoPos;
use vstd::string::StrSliceExecFns;
use vstd::string::StringSliceAdditionalSpecFns;

verus! {

/// Lowercase an ASCII byte; anything else passes through.
pub open spec fn spec_lower_byte(c: u8) -> u8 {
    if 65 <= c <= 90 {
        (c + 32) as u8
    } else {
        c
    }
}

/// The first n bytes normalised for key matching: ASCII lowercased,
/// underscores dropped.
pub open spec fn spec_normalize_upto(b: Seq<u8>, n: nat) -> Seq<u8>
    decreases n,
{
    if n == 0 {
        Seq::empty()
    } else {
        let prev = spec_normalize_upto(b, (n - 1) as nat);
        if b[n - 1] == 95 {
            prev
        } else {
            prev + seq![spec_lower_byte(b[n - 1])]
        }
    }
}

/// A whole byte string normalised for key matching.
pub open spec fn spec_normalize_key(b: Seq<u8>) -> Seq<u8> {
    spec_normalize_upto(b, b.len())
}

/// Normalise a key for matching: ASCII lowercased, underscores
/// dropped.
pub fn normalize_key(key: &str) -> (r: Vec<u8>)
    ensures
        r@ == spec_normalize_key(key.spec_bytes()),
{
    let b = key.as_bytes();
    let n = b.len();
    let mut r: Vec<u8> = Vec::new();
    let mut i: usize = 0;
    while i < n
        invariant
            0 <= i <= n,
            n == b@.len(),
            b@ == key.spec_bytes(),
            r@ == spec_normalize_upto(b@, i as nat),
        decreases n - i,
    {
        let c = b[i];
        if c != 95 {
            let lc = if 65 <= c && c <= 90 {
                c + 32
            } else {
                c
            };
            r.push(lc);
        }
        i = i + 1;
    }
    r
}

/// Compare a normalised key against a candidate's bytes.
pub fn bytes_eq_str(v: &Vec<u8>, t: &str) -> (r: bool)
    ensures
        r == (v@ == t.spec_bytes()),
{
    let tb = t.as_bytes();
    if v.len() != tb.len() {
        return false;
    }
    let n = v.len();
    let mut i: usize = 0;
    while i < n
        invariant
            0 <= i <= n,
            n == v@.len(),
            n == tb@.len(),
            tb@ == t.spec_bytes(),
            forall|j: int| 0 <= j < i ==> v@[j] == tb@[j],
        decreases n - i,
    {
        if v[i] != tb[i] {
            proof {
                assert(v@[i as int] != t.spec_bytes()[i as int]);
            }
            return false;
        }
        i = i + 1;
    }
    proof {
        assert(v@ =~= tb@);
    }
    true
}

/// Compare two strings by their bytes.
pub fn str_eq_bytes(a: &str, t: &str) -> (r: bool)
    ensures
        r == (a.spec_bytes() == t.spec_bytes()),
{
    let ab = a.as_bytes();
    let tb = t.as_bytes();
    if ab.len() != tb.len() {
        return false;
    }
    let n = ab.len();
    let mut i: usize = 0;
    while i < n
        invariant
            0 <= i <= n,
            n == ab@.len(),
            n == tb@.len(),
            ab@ == a.spec_bytes(),
            tb@ == t.spec_bytes(),
            forall|j: int| 0 <= j < i ==> ab@[j] == tb@[j],
        decreases n - i,
    {
        if ab[i] != tb[i] {
            proof {
                assert(a.spec_bytes()[i as int] != t.spec_bytes()[i as int]);
            }
            return false;
        }
        i = i + 1;
    }
    proof {
        assert(ab@ =~= tb@);
    }
    true
}

/// Borrow each owned string.
pub fn to_str_refs<'a>(strings: &'a Vec<String>) -> (r: Vec<&'a str>)
    ensures
        r@.len() == strings@.len(),
        forall|i: int| 0 <= i < r@.len() ==> (#[trigger] r@[i])@ == strings@[i]@,
{
    let n = strings.len();
    let mut r: Vec<&str> = Vec::new();
    let mut i: usize = 0;
    while i < n
        invariant
            0 <= i <= n,
            n == strings@.len(),
            r@.len() == i,
            forall|j: int| 0 <= j < i ==> (#[trigger] r@[j])@ == strings@[j]@,
        decreases n - i,
    {
        r.push(strings[i].as_str());
        i = i + 1;
    }
    r
}

/// Split a comma-separated list and keep the two-character body keys,
/// dropping anything of another length.
pub fn body_keys_str_to_keys(key_string: String) -> (r: Vec<String>)
    ensures
        forall|i: int| 0 <= i < r@.len() ==> (#[trigger] r@[i])@.len() == 2,
{
    let s = key_string.as_str();
    let n = s.unicode_len();
    let mut r: Vec<String> = Vec::new();
    let mut start: usize = 0;
    let mut i: usize = 0;
    while i < n
        invariant
            0 <= start <= i <= n,
            n == s@.len(),
            forall|j: int| 0 <= j < r@.len() ==> (#[trigger] r@[j])@.len() == 2,
        decreases n - i,
    {
        if s.get_char(i) == ',' {
            if i - start == 2 {
                let seg = s.substring_char(start, i);
                r.push(seg.to_owned());
            }
            start = i + 1;
        }
        i = i + 1;
    }
    if n - start == 2 {
        let seg = s.substring_char(start, n);
        r.push(seg.to_owned());
    }
    r
}

/// As body_keys_str_to_keys, excluding the ascendant pseudo-key, and
/// falling back to the given defaults when nothing valid remains.
pub fn body_keys_str_to_keys_or(key_string: String, default_keys: Vec<&str>) -> (r: Vec<String>)
    ensures
        forall|i: int| 0 <= i < r@.len() ==> (#[trigger] r@[i])@.len() == 2 || exists|j: int|
            0 <= j < default_keys@.len() && (#[trigger] r@[i])@ == default_keys@[j]@,
{
    let keys = body_keys_str_to_keys(key_string);
    let mut r: Vec<String> = Vec::new();
    if keys.len() > 0 {
        let n = keys.len();
        let mut i: usize = 0;
        while i < n
            invariant
                0 <= i <= n,
                n == keys@.len(),
                forall|j: int| 0 <= j < keys@.len() ==> (#[trigger] keys@[j])@.len() == 2,
                forall|j: int| 0 <= j < r@.len() ==> (#[trigger] r@[j])@.len() == 2,
            decreases n - i,
        {
            let norm = normalize_key(keys[i].as_str());
            if !bytes_eq_str(&norm, "as") {
                r.push(keys[i].clone());
            }
            i = i + 1;
        }
    } else {
        let n = default_keys.len();
        let mut i: usize = 0;
        while i < n
            invariant
                0 <= i <= n,
                n == default_keys@.len(),
                forall|j: int|
                    0 <= j < r@.len() ==> (#[trigger] r@[j])@.len() == 2 || exists|k: int|
                        0 <= k < default_keys@.len() && r@[j]@ == default_keys@[k]@,
            decreases n - i,
        {
            r.push(default_keys[i].to_owned());
            i = i + 1;
        }
    }
    r
}

/// Read a signed decimal written with up to six fractional digits as a
/// fixed-point count of millionths, over the char range [from, to) of
/// the string. None for an empty or malformed number.
fn parse_fixed_micro(s: &str, from: usize, to: usize) -> (r: Option<i64>)
    requires
        from <= to <= s@.len(),
{
    let mut i = from;
    let mut neg = false;
    if i < to {
        let c = s.get_char(i);
        if c == '-' {
            neg = true;
            i = i + 1;
        } else if c == '+' {
            i = i + 1;
        }
    }
    if i >= to {
        return None;
    }
    let mut int_part: i64 = 0;
    let mut digits: usize = 0;
    let mut saw_dot = false;
    while i < to && !saw_dot
        invariant
            from <= i <= to <= s@.len(),
            digits <= i - from,
            0 <= int_part < 1_000_000_000,
        decreases to - i,
    {
        let c = s.get_char(i);
        if c == '.' {
            saw_dot = true;
        } else {
            if !(c >= '0' && c <= '9') {
                return None;
            }
            if int_part >= 100_000_000 {
                return None;
            }
            let d = digit_value(c);
            int_part = int_part * 10 + d;
            digits = digits + 1;
        }
        i = i + 1;
    }
    if digits == 0 {
        return None;
    }
    let mut frac: i64 = 0;
    let mut frac_digits: usize = 0;
    if saw_dot {
        while i < to && frac_digits < 6
            invariant
                from <= i <= to <= s@.len(),
                frac_digits <= 6,
                0 <= frac < spec_pow10(frac_digits as int),
            decreases to - i,
        {
            let c2 = s.get_char(i);
            if !(c2 >= '0' && c2 <= '9') {
                return None;
            }
            let d = digit_value(c2);
            frac = frac * 10 + d;
            frac_digits = frac_digits + 1;
            i = i + 1;
        }
        while i < to
            invariant
                from <= i <= to <= s@.len(),
            decreases to - i,
        {
            let c2 = s.get_char(i);
            if !(c2 >= '0' && c2 <= '9') {
                return None;
            }
            i = i + 1;
        }
        let mut pad = frac_digits;
        while pad < 6
            invariant
                pad <= 6,
                0 <= frac < spec_pow10(pad as int),
            decreases 6 - pad,
        {
            frac = frac * 10;
            pad = pad + 1;
        }
    }
    proof {
        assert(frac < 1_000_000);
    }
    let magnitude = int_part * 1_000_000 + frac;
    if neg {
        Some(-magnitude)
    } else {
        Some(magnitude)
    }
}

/// Powers of ten up to the six fractional digits the parser keeps.
pub open spec fn spec_pow10(n: int) -> int {
    if n <= 0 {
        1
    } else if n == 1 {
        10
    } else if n == 2 {
        100
    } else if n == 3 {
        1000
    } else if n == 4 {
        10000
    } else if n == 5 {
        100000
    } else {
        1000000
    }
}

/// The value of a decimal digit character.
fn digit_value(c: char) -> (r: i64)
    requires
        '0' <= c <= '9',
    ensures
        0 <= r <= 9,
        r == c as int - 48,
{
    (c as u32) as i64 - 48
}

/// Read a "lat,lng" or "lat,lng,alt" coordinate string (decimal
/// degrees, micro-degree precision; altitude in whole metres). None
/// unless at least a well-formed latitude and longitude are present.
pub fn loc_string_to_geo(loc: &str) -> (r: Option<GeoPos>)
{
    let n = loc.unicode_len();
    let mut bounds: Vec<(usize, usize)> = Vec::new();
    let mut start: usize = 0;
    let mut i: usize = 0;
    while i < n
        invariant
            0 <= start <= i <= n,
            n == loc@.len(),
            forall|j: int|
                0 <= j < bounds@.len() ==> (#[trigger] bounds@[j]).0 <= bounds@[j].1 <= n,
        decreases n - i,
    {
        if loc.get_char(i) == ',' {
            bounds.push((start, i));
            start = i + 1;
        }
        i = i + 1;
    }
    bounds.push((start, n));
    if bounds.len() < 2 {
        return None;
    }
    let b0 = bounds[0];
    let b1 = bounds[1];
    let lat = parse_fixed_micro(loc, b0.0, b0.1);
    let lng = parse_fixed_micro(loc, b1.0, b1.1);
    match (lat, lng) {
        (Some(lat_v), Some(lng_v)) => {
            let alt_v: i64 = if bounds.len() > 2 {
                let b2 = bounds[2];
                match parse_fixed_micro(loc, b2.0, b2.1) {
                    Some(a) => a / 1_000_000,
                    None => 0,
                }
            } else {
                0
            };
            Some(GeoPos::new(lat_v, lng_v, alt_v))
        },
        _ => None,
    }
}

} // verus!
