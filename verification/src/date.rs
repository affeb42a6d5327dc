//! Calendar dates and the lenient reading of the register's year-month
//! values.

use vstd::prelude::*;
use vstd::string::StringExecFns;
use chrono::Datelike;
use crate::text::text_of;

verus! {

/// A day of the calendar, as its year, month and day of the month.
#[derive(Clone, Copy, Debug, PartialEq, Eq, Structural)]
pub struct CalendarDate {
    pub year: i32,
    pub month: u32,
    pub day: u32,
}

impl CalendarDate {
    /// The month and the day lie within the ranges of the calendar.
    pub open spec fn wf(&self) -> bool {
        1 <= self.month <= 12 && 1 <= self.day <= 31
    }
}

/// Why a text was not read as a date.
#[derive(Clone, Copy, Debug, PartialEq, Eq, Structural)]
pub enum DateError {
    /// The text does not have the expected form, or names no day of the
    /// calendar.
    Unparseable,
}

#[verifier::external_type_specification]
#[verifier::external_body]
pub struct ExParseError(chrono::format::ParseError);

/// The date that `chrono::NaiveDate::parse_from_str` reads from `text` under
/// `format`, or `None` where it reports an error.
pub uninterp spec fn parsed_date(text: Seq<char>, format: Seq<char>) -> Option<CalendarDate>;

/// Reads a date from `text` under a strftime-like `format`.
///
/// Trusted: `chrono::NaiveDate::parse_from_str`. Its outcome depends on the
/// two texts alone and is given the name `parsed_date`; a date that it
/// returns is handed on as the year, month and day that
/// `chrono::Datelike` reports for it, the month from 1 to 12 and the day
/// from 1 to 31.
#[verifier::external_body]
pub(crate) fn parse_with_format(text: &str, format: &str) -> (parsed: Result<
    CalendarDate,
    chrono::format::ParseError,
>)
    ensures
        match parsed {
            Ok(date) => parsed_date(text@, format@) == Some(date) && date.wf(),
            Err(_) => parsed_date(text@, format@).is_none(),
        },
{
    match chrono::NaiveDate::parse_from_str(text, format) {
        Ok(date) => Ok(CalendarDate { year: date.year(), month: date.month(), day: date.day() }),
        Err(error) => Err(error),
    }
}

/// The format of a full date: year, month and day, with hyphens between.
pub const YEAR_MONTH_DAY: &'static str = "%Y-%m-%d";

/// What completes a year-month text to the first day of that month.
pub const FIRST_DAY: &'static str = "-01";

/// The date that a year-month text stands for: the text is completed with
/// the first day of the month and read as year, month and day.
pub open spec fn year_month_date(text: Seq<char>) -> Option<CalendarDate> {
    parsed_date(text + FIRST_DAY@, YEAR_MONTH_DAY@)
}

/// The date of an optional year-month field. A field that is absent, or
/// that cannot be read, gives no date.
pub open spec fn normalized_date(field: Option<Seq<char>>) -> Option<CalendarDate> {
    match field {
        Some(text) => year_month_date(text),
        None => None,
    }
}

/// Reads a year-month text such as `2023-05` as the first day of that month.
pub fn parse_date(date: &str) -> (parsed: Result<CalendarDate, DateError>)
    ensures
        match parsed {
            Ok(day) => year_month_date(date@) == Some(day) && day.wf(),
            Err(error) => year_month_date(date@).is_none() && error == DateError::Unparseable,
        },
{
    let mut full = date.to_owned();
    full.append(FIRST_DAY);
    match parse_with_format(full.as_str(), YEAR_MONTH_DAY) {
        Ok(day) => Ok(day),
        Err(_) => Err(DateError::Unparseable),
    }
}

/// The lenient policy on dates: a date that was read is kept, and a failure
/// to read one leaves the date absent.
pub fn date_or_absent(parsed: Result<CalendarDate, DateError>) -> (date: Option<CalendarDate>)
    ensures
        date == match parsed {
            Ok(day) => Some(day),
            Err(_) => None,
        },
{
    match parsed {
        Ok(day) => Some(day),
        Err(_) => None,
    }
}

/// The date of an optional year-month field of a record.
pub fn normalize_date(field: &Option<String>) -> (date: Option<CalendarDate>)
    ensures
        date == normalized_date(text_of(*field)),
        date matches Some(day) ==> day.wf(),
{
    match field {
        Some(text) => date_or_absent(parse_date(text.as_str())),
        None => None,
    }
}

} // verus!
