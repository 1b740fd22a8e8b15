use vstd::prelude::*;
use chrono::Datelike;
use chrono::Timelike;
use crate::json::{str_field, JsonValue};

verus! {

/// A day of the proleptic Gregorian calendar.
#[derive(Clone, Copy, Debug, PartialEq, Eq, Structural)]
pub struct CalendarDate {
    pub year: i32,
    pub month: u32,
    pub day: u32,
}

/// A time of day. A leap second shows as `second == 59` with `nanosecond` of a
/// billion or more.
#[derive(Clone, Copy, Debug, PartialEq, Eq, Structural)]
pub struct TimeOfDay {
    pub hour: u32,
    pub minute: u32,
    pub second: u32,
    pub nanosecond: u32,
}

/// The layout of a calendar date in a response: `YYYY-MM-DD`.
pub const DATE_FORMAT: &'static str = "%Y-%m-%d";

/// The layout of a time of day in a response: `HH:MM:SS`.
pub const TIME_FORMAT: &'static str = "%H:%M:%S";

impl CalendarDate {
    pub open spec fn wf(self) -> bool {
        1 <= self.month <= 12 && 1 <= self.day <= 31
    }
}

impl TimeOfDay {
    pub open spec fn wf(self) -> bool {
        self.hour < 24 && self.minute < 60 && self.second < 60 && self.nanosecond < 2_000_000_000
    }
}

/// The date that `text` denotes under the strftime-style `format`, if it is one.
pub uninterp spec fn date_parsed(text: Seq<char>, format: Seq<char>) -> Option<CalendarDate>;

/// The time of day that `text` denotes under the strftime-style `format`, if it is one.
pub uninterp spec fn time_parsed(text: Seq<char>, format: Seq<char>) -> Option<TimeOfDay>;

/// Relies on `chrono::NaiveDate::parse_from_str`: the outcome depends on the two
/// strings alone, and a `NaiveDate` is always an existing date.
#[verifier::external_body]
pub(crate) fn parse_date(text: &str, format: &str) -> (r: Option<CalendarDate>)
    ensures
        r == date_parsed(text@, format@),
        r matches Some(d) ==> d.wf(),
{
    chrono::NaiveDate::parse_from_str(text, format)
        .ok()
        .map(|d| CalendarDate { year: d.year(), month: d.month(), day: d.day() })
}

/// Relies on `chrono::NaiveTime::parse_from_str`: the outcome depends on the two
/// strings alone, and the fields of a `NaiveTime` stay in their ranges.
#[verifier::external_body]
pub(crate) fn parse_time(text: &str, format: &str) -> (r: Option<TimeOfDay>)
    ensures
        r == time_parsed(text@, format@),
        r matches Some(t) ==> t.wf(),
{
    chrono::NaiveTime::parse_from_str(text, format).ok().map(|t| TimeOfDay {
        hour: t.hour(),
        minute: t.minute(),
        second: t.second(),
        nanosecond: t.nanosecond(),
    })
}

/// The calendar date held as text in member `key` of `v`.
pub open spec fn date_field(v: JsonValue, key: Seq<char>) -> Option<CalendarDate> {
    match str_field(v, key) {
        Some(s) => date_parsed(s@, DATE_FORMAT@),
        None => None,
    }
}

/// The time of day held as text in member `key` of `v`.
pub open spec fn time_field(v: JsonValue, key: Seq<char>) -> Option<TimeOfDay> {
    match str_field(v, key) {
        Some(s) => time_parsed(s@, TIME_FORMAT@),
        None => None,
    }
}

} // verus!
