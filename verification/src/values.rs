//! The residual metadata values: arbitrary-shaped `toml::Value`s that the
//! pipeline carries through unexamined, and the few trusted ways it touches
//! them (reading a textual scalar, and building the scalars it re-encodes).

use vstd::prelude::*;
use crate::datetime::{DatetimeValue, UtcOffset};

verus! {

/// `toml::Value` is the shape-preserving carrier for metadata values: the
/// pipeline never looks inside one except through `value_text`.
#[verifier::external_type_specification]
#[verifier::external_body]
pub struct ExTomlValue(toml::Value);

/// The text a value holds if it is a textual scalar, and `None` otherwise.
pub uninterp spec fn text_of(v: toml::Value) -> Option<Seq<char>>;

/// Relies on `toml::Value::as_str`: returns the string of a string value and
/// `None` for every other shape. The result depends on the value alone.
#[verifier::external_body]
pub(crate) fn value_text(v: &toml::Value) -> (r: Option<String>)
    ensures
        match r {
            Some(s) => text_of(*v) == Some(s@),
            None => text_of(*v) is None,
        },
{
    match v.as_str() {
        Some(s) => Some(s.to_owned()),
        None => None,
    }
}

/// The textual scalar holding a given text.
pub uninterp spec fn text_value(s: Seq<char>) -> toml::Value;

/// Relies on `toml::Value::String`, the textual scalar constructor; by
/// `toml::Value::as_str`, the constructed value holds exactly the given text.
#[verifier::external_body]
pub(crate) fn make_text_value(s: String) -> (r: toml::Value)
    ensures
        r == text_value(s@),
        text_of(r) == Some(s@),
{
    toml::Value::String(s)
}

/// The datetime scalar holding a given datetime value.
pub uninterp spec fn datetime_value(d: DatetimeValue) -> toml::Value;

/// Relies on `toml::Value::Datetime`, the datetime scalar constructor, with
/// the fields carried over one for one.
#[verifier::external_body]
pub(crate) fn make_datetime_value(d: &DatetimeValue) -> (r: toml::Value)
    ensures
        r == datetime_value(*d),
{
    let date = d.date.map(|x| toml::value::Date { year: x.year, month: x.month, day: x.day });
    let time = d.time.map(|x| toml::value::Time { hour: x.hour, minute: x.minute, second: x.second, nanosecond: x.nanosecond });
    let offset = d.offset.map(|o| match o {
        UtcOffset::Z => toml::value::Offset::Z,
        UtcOffset::Custom { minutes } => toml::value::Offset::Custom { minutes },
    });
    toml::Value::Datetime(toml::value::Datetime { date, time, offset })
}

} // verus!
