//! Calendar dates as plain values, and parsing them from the handful of
//! notations the command line accepts.
//!
//! The library holds a date as year, month and day; only parsing — deciding
//! whether a string names a real calendar date — is delegated to the `chrono`
//! crate behind a trusted wrapper.

use vstd::prelude::*;

use chrono::Datelike;

use crate::errors::LibroError;

verus! {

/// A calendar date, held as plain values.
#[derive(Debug, Clone, Copy, PartialEq, Eq, Structural)]
pub struct Date {
    /// The calendar year.
    pub year: i32,
    /// The month, 1 to 12.
    pub month: u8,
    /// The day of the month, 1 to 31.
    pub day: u8,
}

impl Date {
    /// Well-formedness: the month and day lie in their calendar ranges. The
    /// library does not re-check month lengths; that is the parser's job.
    pub open spec fn wf(self) -> bool {
        1 <= self.month <= 12 && 1 <= self.day <= 31
    }

    /// A date from its parts; rejects a month or day outside its range.
    pub fn from_ymd(year: i32, month: u8, day: u8) -> (r: Option<Date>)
        ensures
            r matches Some(d) ==> d == (Date { year, month, day }) && d.wf(),
            r is Some <==> 1 <= month <= 12 && 1 <= day <= 31,
    {
        if 1 <= month && month <= 12 && 1 <= day && day <= 31 {
            Some(Date { year, month, day })
        } else {
            None
        }
    }

    /// Whether this date falls strictly after `other`.
    pub fn is_after(&self, other: &Date) -> (r: bool)
        ensures
            r == lex_after(*self, *other),
    {
        self.year > other.year || (self.year == other.year && (self.month > other.month || (
        self.month == other.month && self.day > other.day)))
    }
}

/// Whether `a` falls strictly after `b`, comparing year, then month, then day.
pub open spec fn lex_after(a: Date, b: Date) -> bool {
    a.year > b.year || (a.year == b.year && (a.month > b.month || (a.month == b.month && a.day
        > b.day)))
}

/// The date a triple of year, month and day stands for.
pub open spec fn date_of_triple(t: (i32, u8, u8)) -> Date {
    Date { year: t.0, month: t.1, day: t.2 }
}

/// What chrono's date parser answers for a given string and format.
pub uninterp spec fn chrono_parsed(s: Seq<char>, fmt: Seq<char>) -> Option<(i32, u8, u8)>;

/// Relies on chrono's `NaiveDate::parse_from_str`: whether a string matches a
/// date format, and which date it names, depend on the two strings alone; a
/// parsed date is a real calendar date, so its month is 1 to 12 and its day 1
/// to 31.
#[verifier::external_body]
fn parse_with_format(s: &str, fmt: &str) -> (r: Option<(i32, u8, u8)>)
    ensures
        r == chrono_parsed(s@, fmt@),
        r matches Some(t) ==> 1 <= t.1 <= 12 && 1 <= t.2 <= 31,
{
    match chrono::NaiveDate::parse_from_str(s, fmt) {
        Ok(d) => Some((d.year(), d.month() as u8, d.day() as u8)),
        Err(_) => None,
    }
}

/// The date formats the library accepts, in the order they are tried.
pub open spec fn date_formats() -> Seq<Seq<char>> {
    seq!["%Y-%m-%d"@, "%Y/%m/%d"@, "%d/%m/%Y"@, "%d-%m-%Y"@, "%m/%d/%Y"@, "%m-%d-%Y"@]
}

/// The answer of the first accepting format from position `k` on, if any.
pub open spec fn parse_from(s: Seq<char>, k: int) -> Option<(i32, u8, u8)>
    decreases 6 - k,
{
    if k < 0 || k >= 6 {
        None
    } else if chrono_parsed(s, date_formats()[k]) is Some {
        chrono_parsed(s, date_formats()[k])
    } else {
        parse_from(s, k + 1)
    }
}

/// Parses a date in the first of the accepted formats that matches; an input
/// no format accepts is rejected as invalid.
pub fn parse_date(date_str: &str) -> (r: Result<Date, LibroError>)
    ensures
        r matches Ok(d) ==> parse_from(date_str@, 0) == Some((d.year, d.month, d.day)) && d.wf(),
        r is Err <==> parse_from(date_str@, 0) is None,
        r matches Err(e) ==> e is InvalidInput,
{
    proof {
        assert(date_formats()[0] == "%Y-%m-%d"@);
        assert(date_formats()[1] == "%Y/%m/%d"@);
        assert(date_formats()[2] == "%d/%m/%Y"@);
        assert(date_formats()[3] == "%d-%m-%Y"@);
        assert(date_formats()[4] == "%m/%d/%Y"@);
        assert(date_formats()[5] == "%m-%d-%Y"@);
    }
    if let Some(t) = parse_with_format(date_str, "%Y-%m-%d") {
        return Ok(Date { year: t.0, month: t.1, day: t.2 });
    }
    proof {
        assert(parse_from(date_str@, 0) == parse_from(date_str@, 1));
    }
    if let Some(t) = parse_with_format(date_str, "%Y/%m/%d") {
        return Ok(Date { year: t.0, month: t.1, day: t.2 });
    }
    proof {
        assert(parse_from(date_str@, 1) == parse_from(date_str@, 2));
    }
    if let Some(t) = parse_with_format(date_str, "%d/%m/%Y") {
        return Ok(Date { year: t.0, month: t.1, day: t.2 });
    }
    proof {
        assert(parse_from(date_str@, 2) == parse_from(date_str@, 3));
    }
    if let Some(t) = parse_with_format(date_str, "%d-%m-%Y") {
        return Ok(Date { year: t.0, month: t.1, day: t.2 });
    }
    proof {
        assert(parse_from(date_str@, 3) == parse_from(date_str@, 4));
    }
    if let Some(t) = parse_with_format(date_str, "%m/%d/%Y") {
        return Ok(Date { year: t.0, month: t.1, day: t.2 });
    }
    proof {
        assert(parse_from(date_str@, 4) == parse_from(date_str@, 5));
    }
    if let Some(t) = parse_with_format(date_str, "%m-%d-%Y") {
        return Ok(Date { year: t.0, month: t.1, day: t.2 });
    }
    proof {
        assert(parse_from(date_str@, 5) == parse_from(date_str@, 6));
        assert(parse_from(date_str@, 6) is None);
    }
    let msg = String::from_str("Invalid date format: '").concat(date_str).concat(
        "'. Expected formats: YYYY-MM-DD, YYYY/MM/DD, DD/MM/YYYY, etc.",
    );
    Err(LibroError::invalid_input(msg))
}

/// Rejects a date that falls after `today`.
pub fn validate_date_not_future(date: &Date, today: &Date) -> (r: Result<(), LibroError>)
    ensures
        r is Err <==> lex_after(*date, *today),
        r matches Err(e) ==> e matches LibroError::Validation(m) && m@
            == "Date cannot be in the future"@,
{
    if date.is_after(today) {
        Err(LibroError::validation(String::from_str("Date cannot be in the future")))
    } else {
        Ok(())
    }
}

/// Parses a date and then rejects it when it lies after `today`.
pub fn parse_and_validate_date(date_str: &str, today: &Date) -> (r: Result<Date, LibroError>)
    ensures
        r matches Ok(d) ==> parse_from(date_str@, 0) == Some((d.year, d.month, d.day))
            && !lex_after(d, *today),
        r is Ok <==> (parse_from(date_str@, 0) matches Some(t) && !lex_after(
            date_of_triple(t),
            *today,
        )),
{
    let date = parse_date(date_str)?;
    match validate_date_not_future(&date, today) {
        Ok(()) => Ok(date),
        Err(e) => Err(e),
    }
}

} // verus!
