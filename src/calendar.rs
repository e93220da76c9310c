use vstd::prelude::*;

use chrono::{Datelike, Timelike};

verus! {

/// A calendar date with no time of day.
#[derive(Debug, Clone, Copy, PartialEq, Eq, Structural)]
pub struct CalendarDate {
    pub year: i32,
    pub month: u32,
    pub day: u32,
}

/// A local wall-clock reading: a date and a time of day to the second.
#[derive(Debug, Clone, Copy, PartialEq, Eq, Structural)]
pub struct LocalDateTime {
    pub date: CalendarDate,
    pub hour: u32,
    pub minute: u32,
    pub second: u32,
}

impl CalendarDate {
    /// The date as (year, month, day).
    pub open spec fn triple(self) -> (int, int, int) {
        (self.year as int, self.month as int, self.day as int)
    }

    /// True when this date falls strictly after `other`.
    pub fn is_after(&self, other: &CalendarDate) -> (r: bool)
        ensures
            r == strictly_after(self.triple(), other.triple()),
    {
        self.year > other.year || (self.year == other.year && (self.month > other.month || (
        self.month == other.month && self.day > other.day)))
    }
}

/// Dates as (year, month, day) compared in calendar order.
pub open spec fn strictly_after(a: (int, int, int), b: (int, int, int)) -> bool {
    a.0 > b.0 || (a.0 == b.0 && (a.1 > b.1 || (a.1 == b.1 && a.2 > b.2)))
}

pub open spec fn opt_triple(d: Option<CalendarDate>) -> Option<(int, int, int)> {
    match d {
        Some(x) => Some(x.triple()),
        None => None,
    }
}

/// The date, as (year, month, day), that chrono reads from text `s` under the
/// strftime format `fmt`; `None` where it rejects the text.
pub uninterp spec fn parsed_date(s: Seq<char>, fmt: Seq<char>) -> Option<(int, int, int)>;

/// The format in which requests store their dates.
pub open spec fn stored_date_format() -> Seq<char> {
    "%m/%d/%Y"@
}

/// Relies on chrono's `NaiveDate::parse_from_str`: its outcome depends on the text
/// and the format alone; a date it returns is read back through `Datelike`'s
/// `year`, `month` and `day`.
#[verifier::external_body]
fn parse_date(s: &str, fmt: &str) -> (r: Option<CalendarDate>)
    ensures
        opt_triple(r) == parsed_date(s@, fmt@),
{
    match chrono::NaiveDate::parse_from_str(s, fmt) {
        Ok(d) => Some(CalendarDate { year: d.year(), month: d.month(), day: d.day() }),
        Err(_) => None,
    }
}

/// Reads a date stored as `MM/DD/YYYY`; `None` where the text is no such date.
pub fn parse_stored_date(s: &str) -> (r: Option<CalendarDate>)
    ensures
        opt_triple(r) == parsed_date(s@, stored_date_format()),
{
    parse_date(s, "%m/%d/%Y")
}

/// Relies on chrono's `Local::now`, read through `naive_local` and the `Datelike`
/// and `Timelike` accessors, whose hour, minute and second lie in 0..24, 0..60 and
/// 0..60.
#[verifier::external_body]
pub(crate) fn local_now() -> (r: LocalDateTime)
    ensures
        r.hour < 24,
        r.minute < 60,
        r.second < 60,
{
    let now = chrono::Local::now().naive_local();
    LocalDateTime {
        date: CalendarDate { year: now.year(), month: now.month(), day: now.day() },
        hour: now.hour(),
        minute: now.minute(),
        second: now.second(),
    }
}

} // verus!
