//! The sidereal offset modes a caller may select, and their key
//! strings. The offset values themselves come from the ephemeris
//! collaborator; this module only names and numbers the modes.
use vstd::prelude::*;

use crate::converters::bytes_eq_str;
use crate::converters::normalize_key;
use crate::converters::spec_normalize_key;
use crate::traits::FromKey;
use vstd::string::StringSliceAdditionalSpecFns;

verus! {

/// A sidereal offset mode.
#[derive(Debug, Copy, Clone, PartialEq, Eq, Structural)]
pub enum Ayanamsha {
    Tropical,
    TrueCitra,
    Lahiri,
    Krishnamurti,
    Yukteshwar,
    Raman,
    ValensMoon,
    TrueMula,
    TrueRevati,
    TruePushya,
    TrueSheoran,
    Aldebaran15Tau,
    GalcentMulaWilhelm,
    GalcentCochrane,
    Hipparchos,
    Sassanian,
    Ushashashi,
    JnBhasin,
}

impl Ayanamsha {
    /// The canonical key string of the mode.
    pub fn as_string(&self) -> (r: String)
        ensures
            *self is TrueCitra ==> r@ == "true_citra"@,
            *self is Lahiri ==> r@ == "lahiri"@,
            *self is Krishnamurti ==> r@ == "krishnamurti"@,
            *self is Yukteshwar ==> r@ == "yukteshwar"@,
            *self is Raman ==> r@ == "raman"@,
            *self is ValensMoon ==> r@ == "valensmoon"@,
            *self is TrueMula ==> r@ == "true_mula"@,
            *self is TrueRevati ==> r@ == "true_revati"@,
            *self is TruePushya ==> r@ == "true_pushya"@,
            *self is TrueSheoran ==> r@ == "true_sheoran"@,
            *self is Aldebaran15Tau ==> r@ == "aldebaran_15_tau"@,
            *self is GalcentMulaWilhelm ==> r@ == "galcent_mula_wilhelm"@,
            *self is GalcentCochrane ==> r@ == "galcent_cochrane"@,
            *self is Hipparchos ==> r@ == "hipparchos"@,
            *self is Sassanian ==> r@ == "sassanian"@,
            *self is Ushashashi ==> r@ == "ushashashi"@,
            *self is JnBhasin ==> r@ == "jnbhasin"@,
            *self is Tropical ==> r@ == "tropical"@,
    {
        match self {
            Ayanamsha::TrueCitra => "true_citra".to_owned(),
            Ayanamsha::Lahiri => "lahiri".to_owned(),
            Ayanamsha::Krishnamurti => "krishnamurti".to_owned(),
            Ayanamsha::Yukteshwar => "yukteshwar".to_owned(),
            Ayanamsha::Raman => "raman".to_owned(),
            Ayanamsha::ValensMoon => "valensmoon".to_owned(),
            Ayanamsha::TrueMula => "true_mula".to_owned(),
            Ayanamsha::TrueRevati => "true_revati".to_owned(),
            Ayanamsha::TruePushya => "true_pushya".to_owned(),
            Ayanamsha::TrueSheoran => "true_sheoran".to_owned(),
            Ayanamsha::Aldebaran15Tau => "aldebaran_15_tau".to_owned(),
            Ayanamsha::GalcentMulaWilhelm => "galcent_mula_wilhelm".to_owned(),
            Ayanamsha::GalcentCochrane => "galcent_cochrane".to_owned(),
            Ayanamsha::Hipparchos => "hipparchos".to_owned(),
            Ayanamsha::Sassanian => "sassanian".to_owned(),
            Ayanamsha::Ushashashi => "ushashashi".to_owned(),
            Ayanamsha::JnBhasin => "jnbhasin".to_owned(),
            Ayanamsha::Tropical => "tropical".to_owned(),
        }
    }

    /// The numeric mode value of the ephemeris interface.
    pub fn as_i32(self) -> (r: i32)
        ensures
            self is Tropical ==> r == 0,
            self is TrueCitra ==> r == 27,
            self is Lahiri ==> r == 1,
            self is Krishnamurti ==> r == 5,
            self is Yukteshwar ==> r == 7,
            self is Raman ==> r == 3,
            self is ValensMoon ==> r == 42,
            self is TrueMula ==> r == 35,
            self is TrueRevati ==> r == 28,
            self is TruePushya ==> r == 29,
            self is TrueSheoran ==> r == 39,
            self is Aldebaran15Tau ==> r == 14,
            self is GalcentMulaWilhelm ==> r == 36,
            self is GalcentCochrane ==> r == 40,
            self is Hipparchos ==> r == 15,
            self is Sassanian ==> r == 16,
            self is Ushashashi ==> r == 4,
            self is JnBhasin ==> r == 8,
    {
        match self {
            Ayanamsha::Tropical => 0,
            Ayanamsha::TrueCitra => 27,
            Ayanamsha::Lahiri => 1,
            Ayanamsha::Krishnamurti => 5,
            Ayanamsha::Yukteshwar => 7,
            Ayanamsha::Raman => 3,
            Ayanamsha::ValensMoon => 42,
            Ayanamsha::TrueMula => 35,
            Ayanamsha::TrueRevati => 28,
            Ayanamsha::TruePushya => 29,
            Ayanamsha::TrueSheoran => 39,
            Ayanamsha::Aldebaran15Tau => 14,
            Ayanamsha::GalcentMulaWilhelm => 36,
            Ayanamsha::GalcentCochrane => 40,
            Ayanamsha::Hipparchos => 15,
            Ayanamsha::Sassanian => 16,
            Ayanamsha::Ushashashi => 4,
            Ayanamsha::JnBhasin => 8,
        }
    }
}

/// The mode a normalised key (lowercased, underscores dropped) selects;
/// anything unrecognised selects the tropical zodiac.
pub open spec fn spec_ayanamsha_from_key(n: Seq<u8>) -> Ayanamsha {
    if n == "tc".spec_bytes() || n == "truecitra".spec_bytes() || n == "citra".spec_bytes() || n
        == "chitra".spec_bytes() {
        Ayanamsha::TrueCitra
    } else if n == "lh".spec_bytes() || n == "lahiri".spec_bytes() {
        Ayanamsha::Lahiri
    } else if n == "kr".spec_bytes() || n == "krishnamurti".spec_bytes() {
        Ayanamsha::Krishnamurti
    } else if n == "yu".spec_bytes() || n == "yukteshwar".spec_bytes() {
        Ayanamsha::Yukteshwar
    } else if n == "ra".spec_bytes() || n == "raman".spec_bytes() {
        Ayanamsha::Raman
    } else if n == "vm".spec_bytes() || n == "valensmoon".spec_bytes() {
        Ayanamsha::ValensMoon
    } else if n == "tm".spec_bytes() || n == "truemula".spec_bytes() {
        Ayanamsha::TrueMula
    } else if n == "tr".spec_bytes() || n == "truerevati".spec_bytes() {
        Ayanamsha::TrueRevati
    } else if n == "tp".spec_bytes() || n == "truepushya".spec_bytes() || n
        == "pushya".spec_bytes() {
        Ayanamsha::TruePushya
    } else if n == "ts".spec_bytes() || n == "truesheoran".spec_bytes() {
        Ayanamsha::TrueSheoran
    } else if n == "at".spec_bytes() || n == "aldebaran15tau".spec_bytes() {
        Ayanamsha::Aldebaran15Tau
    } else if n == "gm".spec_bytes() || n == "galcenmulawilhelm".spec_bytes() {
        Ayanamsha::GalcentMulaWilhelm
    } else if n == "gc".spec_bytes() || n == "galcentcochrane".spec_bytes() {
        Ayanamsha::GalcentCochrane
    } else if n == "hi".spec_bytes() || n == "hipparchos".spec_bytes() {
        Ayanamsha::Hipparchos
    } else if n == "sa".spec_bytes() || n == "sassanian".spec_bytes() {
        Ayanamsha::Sassanian
    } else if n == "us".spec_bytes() || n == "ushashashi".spec_bytes() {
        Ayanamsha::Ushashashi
    } else if n == "jb".spec_bytes() || n == "jnbhasin".spec_bytes() {
        Ayanamsha::JnBhasin
    } else {
        Ayanamsha::Tropical
    }
}

impl FromKey<Ayanamsha> for Ayanamsha {
    /// Match a key, short or long, case- and underscore-insensitively.
    fn from_key(key: &str) -> (r: Ayanamsha)
        ensures
            r == spec_ayanamsha_from_key(spec_normalize_key(key.spec_bytes())),
    {
        let n = normalize_key(key);
        if bytes_eq_str(&n, "tc") || bytes_eq_str(&n, "truecitra") || bytes_eq_str(&n, "citra")
            || bytes_eq_str(&n, "chitra") {
            Ayanamsha::TrueCitra
        } else if bytes_eq_str(&n, "lh") || bytes_eq_str(&n, "lahiri") {
            Ayanamsha::Lahiri
        } else if bytes_eq_str(&n, "kr") || bytes_eq_str(&n, "krishnamurti") {
            Ayanamsha::Krishnamurti
        } else if bytes_eq_str(&n, "yu") || bytes_eq_str(&n, "yukteshwar") {
            Ayanamsha::Yukteshwar
        } else if bytes_eq_str(&n, "ra") || bytes_eq_str(&n, "raman") {
            Ayanamsha::Raman
        } else if bytes_eq_str(&n, "vm") || bytes_eq_str(&n, "valensmoon") {
            Ayanamsha::ValensMoon
        } else if bytes_eq_str(&n, "tm") || bytes_eq_str(&n, "truemula") {
            Ayanamsha::TrueMula
        } else if bytes_eq_str(&n, "tr") || bytes_eq_str(&n, "truerevati") {
            Ayanamsha::TrueRevati
        } else if bytes_eq_str(&n, "tp") || bytes_eq_str(&n, "truepushya") || bytes_eq_str(
            &n,
            "pushya",
        ) {
            Ayanamsha::TruePushya
        } else if bytes_eq_str(&n, "ts") || bytes_eq_str(&n, "truesheoran") {
            Ayanamsha::TrueSheoran
        } else if bytes_eq_str(&n, "at") || bytes_eq_str(&n, "aldebaran15tau") {
            Ayanamsha::Aldebaran15Tau
        } else if bytes_eq_str(&n, "gm") || bytes_eq_str(&n, "galcenmulawilhelm") {
            Ayanamsha::GalcentMulaWilhelm
        } else if bytes_eq_str(&n, "gc") || bytes_eq_str(&n, "galcentcochrane") {
            Ayanamsha::GalcentCochrane
        } else if bytes_eq_str(&n, "hi") || bytes_eq_str(&n, "hipparchos") {
            Ayanamsha::Hipparchos
        } else if bytes_eq_str(&n, "sa") || bytes_eq_str(&n, "sassanian") {
            Ayanamsha::Sassanian
        } else if bytes_eq_str(&n, "us") || bytes_eq_str(&n, "ushashashi") {
            Ayanamsha::Ushashashi
        } else if bytes_eq_str(&n, "jb") || bytes_eq_str(&n, "jnbhasin") {
            Ayanamsha::JnBhasin
        } else {
            Ayanamsha::Tropical
        }
    }
}

/// The canonical keys of every sidereal mode, in presentation order.
pub fn all_ayanamsha_keys() -> (r: Vec<&'static str>)
    ensures
        r@.len() == 17,
{
    let mut r: Vec<&'static str> = Vec::new();
    r.push("true_citra");
    r.push("lahiri");
    r.push("krishnamurti");
    r.push("yukteshwar");
    r.push("raman");
    r.push("valensmoon");
    r.push("true_mula");
    r.push("true_revati");
    r.push("true_pushya");
    r.push("true_sheoran");
    r.push("aldebaran_15_tau");
    r.push("galcent_mula_wilhelm");
    r.push("galcent_cochrane");
    r.push("hipparchos");
    r.push("sassanian");
    r.push("ushashashi");
    r.push("jnbhasin");
    r
}

} // verus!
