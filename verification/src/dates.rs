//! Instants and calendar dates as plain numbers, and the two places where a
//! calendar library is asked: reading a date that a caller typed, and naming
//! the day on which an instant falls.

use vstd::prelude::*;

verus! {

/// An instant: whole seconds since 1970-01-01T00:00:00Z, not counting leap
/// seconds, and the nanoseconds past that second.
#[derive(Debug, Clone, Copy, PartialEq, Eq)]
pub struct Timestamp {
    pub secs: i64,
    pub nanos: u32,
}

/// A day of the proleptic Gregorian calendar.
#[derive(Debug, Clone, Copy, PartialEq, Eq)]
pub struct CalendarDate {
    pub year: i32,
    pub month: u32,
    pub day: u32,
}

impl CalendarDate {
    /// The month is one of twelve and the day one of at most thirty-one.
    pub open spec fn wf(self) -> bool {
        1 <= self.month <= 12 && 1 <= self.day <= 31
    }
}

/// The format in which the tools read and write a day: year, month and day
/// in numbers, with hyphens between them.
pub open spec fn day_format() -> Seq<char> {
    "%Y-%m-%d"@
}

/// What `chrono::NaiveDate::parse_from_str` makes of `text` under `format`:
/// the day it names, or the words of the parser's complaint.
pub uninterp spec fn parsed_date(text: Seq<char>, format: Seq<char>) -> Result<
    CalendarDate,
    Seq<char>,
>;

/// The day on which the instant `secs` seconds after the epoch falls in UTC,
/// written as `chrono` formats it under `format`; `None` where `chrono`
/// cannot represent the instant.
pub uninterp spec fn utc_day(secs: int, format: Seq<char>) -> Option<Seq<char>>;

/// The [`utc_day`] of `secs` in the tools' format, taken by its view.
pub open spec fn is_utc_day(r: Option<String>, secs: int) -> bool {
    match r {
        Some(day) => utc_day(secs, day_format()) == Some(day@),
        None => utc_day(secs, day_format()) is None,
    }
}

/// Calls `chrono::NaiveDate::parse_from_str` and hands back the year, month
/// and day of the date it found, or the text of its error. The contract
/// names the outcome, and states of a date that was found what `chrono`
/// documents of `Datelike::month` and `Datelike::day`: the month lies
/// between 1 and 12, the day between 1 and 31.
#[verifier::external_body]
pub(crate) fn parse_date(text: &str, format: &str) -> (r: Result<CalendarDate, String>)
    ensures
        match r {
            Ok(date) => parsed_date(text@, format@) == Ok::<CalendarDate, Seq<char>>(date)
                && date.wf(),
            Err(complaint) => parsed_date(text@, format@) == Err::<CalendarDate, Seq<char>>(
                complaint@,
            ),
        },
{
    match chrono::NaiveDate::parse_from_str(text, format) {
        Ok(date) => Ok(
            CalendarDate {
                year: chrono::Datelike::year(&date),
                month: chrono::Datelike::month(&date),
                day: chrono::Datelike::day(&date),
            },
        ),
        Err(error) => Err(error.to_string()),
    }
}

/// Formats an instant with `chrono::DateTime::format`. The instant goes to
/// `chrono` as the start of the second `secs`, through
/// `DateTime::from_timestamp`, which refuses seconds outside the range of its
/// calendar. Writing out a format that `chrono` cannot read would panic, so
/// only the tools' own format is admitted. The contract names the outcome and
/// claims nothing more.
#[verifier::external_body]
pub(crate) fn day_of(secs: i64, format: &str) -> (r: Option<String>)
    requires
        format@ == day_format(),
    ensures
        match r {
            Some(day) => utc_day(secs as int, format@) == Some(day@),
            None => utc_day(secs as int, format@) is None,
        },
{
    chrono::DateTime::from_timestamp(secs, 0).map(|instant| instant.format(format).to_string())
}

impl Timestamp {
    /// The calendar day, in UTC, on which this instant falls.
    pub fn day(&self) -> (r: Option<String>)
        ensures
            is_utc_day(r, self.secs as int),
    {
        day_of(self.secs, "%Y-%m-%d")
    }

    /// The instant `days` whole days before this one, where it still fits
    /// the range of seconds that a `Timestamp` holds.
    pub fn days_earlier(&self, days: i32) -> (r: Option<Timestamp>)
        ensures
            r == Timestamp::spec_days_earlier(*self, days),
    {
        let span: i64 = 86_400 * (days as i64);
        match self.secs.checked_sub(span) {
            Some(secs) => Some(Timestamp { secs, nanos: self.nanos }),
            None => None,
        }
    }

    /// [`Timestamp::days_earlier`] in the mathematical integers.
    pub open spec fn spec_days_earlier(at: Timestamp, days: i32) -> Option<Timestamp> {
        let secs = at.secs - 86_400 * days;
        if i64::MIN <= secs <= i64::MAX {
            Some(Timestamp { secs: secs as i64, nanos: at.nanos })
        } else {
            None
        }
    }
}

} // verus!
