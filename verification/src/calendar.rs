//! Calendar dates: the current month up to today, and how a moment is
//! written out for the billing service and for the reader of the message.

use vstd::prelude::*;
use chrono::Datelike;

verus! {

/// The calendar date in UTC, as year, month and day, of the moment `secs`
/// seconds after the start of 1970 (before it, where negative), as `chrono`
/// reckons it; `None` where `chrono` holds no such moment.
pub uninterp spec fn utc_date_of(secs: int) -> Option<(int, int, int)>;

/// The calendar date `year`, `month`, `day` written out by `chrono` in the
/// `strftime` format `format`; `None` where there is no such date or the
/// format is not a valid one.
pub uninterp spec fn date_text(year: int, month: int, day: int, format: Seq<char>) -> Option<
    Seq<char>,
>;

/// The moment `secs` seconds after the start of 1970 as local time in the
/// time zone that the tz database calls `zone`, written out by `chrono` in
/// the `strftime` format `format`; `None` where `chrono` holds no such moment,
/// `chrono-tz` no such zone, or the format is not a valid one.
pub uninterp spec fn zone_time_text(secs: int, zone: Seq<char>, format: Seq<char>) -> Option<
    Seq<char>,
>;

/// Makes the moment with `chrono::DateTime::from_timestamp` and reads its
/// year, month and day by `chrono::Datelike`. The contract claims that the
/// outcome is the one named `utc_date_of`, and, as `Datelike` documents, that
/// the month lies between 1 and 12 and the day between 1 and 31.
#[verifier::external_body]
fn utc_date_at(secs: i64) -> (r: Option<(i32, u32, u32)>)
    ensures
        match r {
            Some((year, month, day)) => {
                &&& utc_date_of(secs as int) == Some((year as int, month as int, day as int))
                &&& 1 <= month <= 12
                &&& 1 <= day <= 31
            },
            None => utc_date_of(secs as int) is None,
        },
{
    chrono::DateTime::from_timestamp(secs, 0).map(|t| (t.year(), t.month(), t.day()))
}

/// Makes the date with `chrono::NaiveDate::from_ymd_opt` and writes it out
/// with `NaiveDate::format` and `DelayedFormat::write_to`. The contract claims
/// only that the outcome is the one named `date_text`.
#[verifier::external_body]
fn format_date(year: i32, month: u32, day: u32, format: &str) -> (r: Option<String>)
    ensures
        r.deep_view() == date_text(year as int, month as int, day as int, format@),
{
    let date = chrono::NaiveDate::from_ymd_opt(year, month, day)?;
    let mut out = String::new();
    match date.format(format).write_to(&mut out) {
        Ok(()) => Some(out),
        Err(_) => None,
    }
}

/// Makes the moment with `chrono::DateTime::from_timestamp`, finds the zone
/// with `chrono_tz::Tz::from_str`, moves the moment there with
/// `DateTime::with_timezone`, and writes it out with `DateTime::format` and
/// `DelayedFormat::write_to`. The contract claims only that the outcome is the
/// one named `zone_time_text`.
#[verifier::external_body]
fn format_in_zone(secs: i64, zone: &str, format: &str) -> (r: Option<String>)
    ensures
        r.deep_view() == zone_time_text(secs as int, zone@, format@),
{
    let moment = chrono::DateTime::from_timestamp(secs, 0)?;
    let tz: chrono_tz::Tz = zone.parse().ok()?;
    let mut out = String::new();
    match moment.with_timezone(&tz).format(format).write_to(&mut out) {
        Ok(()) => Some(out),
        Err(_) => None,
    }
}

/// A day of the calendar.
#[derive(Clone, Copy, Debug, PartialEq, Eq, Structural)]
pub struct CalendarDate {
    pub year: i32,
    pub month: u32,
    pub day: u32,
}

impl CalendarDate {
    /// Whether the month and the day lie within what a calendar can hold.
    pub open spec fn wf(self) -> bool {
        1 <= self.month <= 12 && 1 <= self.day <= 31
    }

    /// Whether `self` is `other` or an earlier day.
    pub open spec fn not_after(self, other: CalendarDate) -> bool {
        self.year < other.year || (self.year == other.year && (self.month < other.month || (
        self.month == other.month && self.day <= other.day)))
    }
}

/// A period of days, from `start` to `end`.
#[derive(Clone, Copy, Debug, PartialEq, Eq, Structural)]
pub struct DateRange {
    pub start: CalendarDate,
    pub end: CalendarDate,
}

impl DateRange {
    /// Whether both ends are days of the calendar and the period does not
    /// end before it starts.
    pub open spec fn wf(self) -> bool {
        self.start.wf() && self.end.wf() && self.start.not_after(self.end)
    }
}

/// The date of `secs`, built from what `utc_date_of` gives for it.
pub open spec fn date_at(secs: int) -> Option<CalendarDate> {
    match utc_date_of(secs) {
        Some((year, month, day)) => Some(
            CalendarDate { year: year as i32, month: month as u32, day: day as u32 },
        ),
        None => None,
    }
}

/// The period from the first day of `today`'s month to `today`.
pub open spec fn month_to_date_of(today: CalendarDate) -> DateRange {
    DateRange { start: CalendarDate { year: today.year, month: today.month, day: 1 }, end: today }
}

/// The format in which the billing service takes a date.
pub open spec fn iso_format() -> Seq<char> {
    "%Y-%m-%d"@
}

/// The time zone in which the message states its time.
pub open spec fn display_zone() -> Seq<char> {
    "Asia/Tokyo"@
}

/// The format in which the message states its time: to the minute.
pub open spec fn display_format() -> Seq<char> {
    "%Y-%m-%d %H:%M"@
}

/// The date in UTC of the moment `now`, given in seconds since the start of
/// 1970.
pub fn today_utc(now: i64) -> (r: Option<CalendarDate>)
    ensures
        r == date_at(now as int),
        r matches Some(date) ==> date.wf(),
{
    match utc_date_at(now) {
        Some((year, month, day)) => Some(CalendarDate { year, month, day }),
        None => None,
    }
}

/// The period from the first day of `today`'s month to `today`.
pub fn month_to_date(today: CalendarDate) -> (range: DateRange)
    ensures
        range == month_to_date_of(today),
        today.wf() ==> range.wf(),
{
    DateRange { start: CalendarDate { year: today.year, month: today.month, day: 1 }, end: today }
}

/// `date` as the billing service takes it: year, month and day with hyphens
/// between. `None` where the calendar has no such day.
pub fn iso_date(date: CalendarDate) -> (r: Option<String>)
    ensures
        r.deep_view() == date_text(
            date.year as int,
            date.month as int,
            date.day as int,
            iso_format(),
        ),
{
    format_date(date.year, date.month, date.day, "%Y-%m-%d")
}

/// The moment `now` as the message states it: local time in Tokyo, to the
/// minute.
pub fn display_time(now: i64) -> (r: Option<String>)
    ensures
        r.deep_view() == zone_time_text(now as int, display_zone(), display_format()),
{
    format_in_zone(now, "Asia/Tokyo", "%Y-%m-%d %H:%M")
}

} // verus!
