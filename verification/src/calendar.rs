//! Calendar dates, read from the clock or from text by `chrono`.

use chrono::Datelike;
use vstd::prelude::*;

verus! {

/// A day of the calendar.
#[derive(Clone, Copy, Debug, PartialEq, Eq, Structural, Hash)]
pub struct Date {
    pub year: i32,
    pub month: u32,
    pub day: u32,
}

/// The date that `chrono` reads from `text` under the pattern `format`;
/// `None` where the text does not fit the pattern or names no day.
pub uninterp spec fn chrono_parsed_date(text: Seq<char>, format: Seq<char>) -> Option<Date>;

/// Calls `chrono::NaiveDate::parse_from_str` and hands out the year, month
/// and day of what it found. The result is the one named by
/// [`chrono_parsed_date`].
#[verifier::external_body]
fn parse_date_with(text: &str, format: &str) -> (r: Option<Date>)
    ensures
        r == chrono_parsed_date(text@, format@),
{
    let date = chrono::NaiveDate::parse_from_str(text, format).ok()?;
    Some(Date { year: date.year(), month: date.month(), day: date.day() })
}

/// Calls `chrono::Local::now` and hands out the year, month and day of the
/// local date. The month is counted from 1 to 12 and the day from 1 to 31,
/// as `chrono::Datelike` documents; which day it is depends on the clock.
#[verifier::external_body]
fn clock_date() -> (d: Date)
    ensures
        1 <= d.month <= 12,
        1 <= d.day <= 31,
{
    let date = chrono::Local::now().date_naive();
    Date { year: date.year(), month: date.month(), day: date.day() }
}

impl Date {
    /// The date that a text of the form `2024-05-31` names.
    pub open spec fn spec_parse(text: Seq<char>) -> Option<Date> {
        chrono_parsed_date(text, "%Y-%m-%d"@)
    }

    /// Reads a date written as year, month and day with hyphens between
    /// them, such as `2024-05-31`.
    pub fn parse(text: &str) -> (r: Option<Date>)
        ensures
            r == Date::spec_parse(text@),
    {
        parse_date_with(text, "%Y-%m-%d")
    }

    /// The local date of the moment of the call.
    pub fn today() -> (d: Date)
        ensures
            1 <= d.month <= 12,
            1 <= d.day <= 31,
    {
        clock_date()
    }
}

} // verus!
