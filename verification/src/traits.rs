//! Key conversions shared by the enum settings.
use vstd::prelude::*;

verus! {

/// Match a short string key to a value of the implementing type.
pub trait FromKey<T> {
    fn from_key(key: &str) -> T;
}

/// The short string key of a value.
pub trait ToKey<T> {
    fn to_key(&self) -> &'static str;
}

/// A calendar rendering of a value.
pub trait ToISODateString {
    fn iso_date_string(&self) -> String;
}

} // verus!
