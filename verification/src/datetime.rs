//! The target schema's typed calendar value, and the parse of the source
//! record's `date` text into it.
//!
//! The accepted grammar is the RFC 3339 subset that TOML uses: a full date,
//! a local time, or a date and time joined by `T`/space, with an optional
//! fractional second and an optional UTC offset. The parse itself is done by
//! the `toml` crate; this module holds the parsed value as plain fields.

use vstd::prelude::*;
use std::str::FromStr;

verus! {

/// A calendar date: year, month and day, as the date grammar validated them.
#[derive(Clone, Copy, PartialEq, Eq, Debug)]
pub struct CalendarDate {
    pub year: u16,
    pub month: u8,
    pub day: u8,
}

/// A time of day, with nanosecond precision.
#[derive(Clone, Copy, PartialEq, Eq, Debug)]
pub struct ClockTime {
    pub hour: u8,
    pub minute: u8,
    pub second: u8,
    pub nanosecond: u32,
}

/// An offset from UTC: either `Z` or a signed number of minutes.
#[derive(Clone, Copy, PartialEq, Eq, Debug)]
pub enum UtcOffset {
    Z,
    Custom { minutes: i16 },
}

/// A datetime value of the target dialect: an optional date, an optional
/// time, and an optional offset, at least one of date and time present.
#[derive(Clone, Copy, PartialEq, Eq, Debug)]
pub struct DatetimeValue {
    pub date: Option<CalendarDate>,
    pub time: Option<ClockTime>,
    pub offset: Option<UtcOffset>,
}

impl DatetimeValue {
    /// The ranges that the date grammar enforces on every value it accepts.
    pub open spec fn wf(self) -> bool {
        &&& self.date is Some || self.time is Some
        &&& match self.date {
            Some(d) => 1 <= d.month <= 12 && 1 <= d.day <= 31,
            None => true,
        }
        &&& match self.time {
            Some(t) => t.hour <= 23 && t.minute <= 59 && t.second <= 60 && t.nanosecond
                <= 999_999_999,
            None => true,
        }
        &&& match self.offset {
            Some(UtcOffset::Custom { minutes }) => -1440 <= minutes <= 1440,
            _ => true,
        }
    }
}

/// The datetime value that the date grammar assigns to a text, or `None`
/// where the text does not conform to the grammar.
pub uninterp spec fn parsed_datetime(s: Seq<char>) -> Option<DatetimeValue>;

/// Relies on `toml::value::Datetime::from_str`: parses the TOML datetime
/// grammar, and on success returns a value within the grammar's ranges
/// (month 1 to 12, day 1 to 31, hour at most 23, minute at most 59, second at
/// most 60, nanosecond at most 999999999, offset within 24 hours), with at
/// least one of date and time present. The result depends on the text alone.
#[verifier::external_body]
pub(crate) fn parse_datetime(s: &str) -> (r: Option<DatetimeValue>)
    ensures
        r == parsed_datetime(s@),
        r matches Some(d) ==> d.wf(),
{
    let d = match toml::value::Datetime::from_str(s) {
        Ok(d) => d,
        Err(_) => return None,
    };
    let date = d.date.map(|x| CalendarDate { year: x.year, month: x.month, day: x.day });
    let time = d.time.map(|x| ClockTime { hour: x.hour, minute: x.minute, second: x.second, nanosecond: x.nanosecond });
    let offset = d.offset.map(|o| match o {
        toml::value::Offset::Z => UtcOffset::Z,
        toml::value::Offset::Custom { minutes } => UtcOffset::Custom { minutes },
    });
    Some(DatetimeValue { date, time, offset })
}

} // verus!
