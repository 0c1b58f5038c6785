//! Points in time as the application stores them: read from and written
//! as text of the form `2024-03-09 14:05:00`.

use vstd::prelude::*;
use vstd::string::StringExecFns;
use chrono::Datelike;
use chrono::Timelike;
use chrono::format::ParseErrorKind;
use std::fmt::Write;

verus! {

/// The form of a stored point in time: year, month and day, then hour,
/// minute and second.
pub const TIMESTAMP_FORMAT: &'static str = "%Y-%m-%d %H:%M:%S";

/// A date and a time of day, without a time zone. A nanosecond of a
/// thousand million or more stands for a leap second after second 59.
#[derive(Clone, Copy, Debug, PartialEq, Eq, Structural)]
pub struct Timestamp {
    pub year: i32,
    pub month: u32,
    pub day: u32,
    pub hour: u32,
    pub minute: u32,
    pub second: u32,
    pub nanosecond: u32,
}

/// Why a text is no point in time.
#[derive(Clone, Copy, Debug, PartialEq, Eq, Structural)]
pub enum ParseProblem {
    /// A field is out of its range.
    OutOfRange,
    /// The fields contradict each other.
    Impossible,
    /// The fields do not determine a date and a time.
    NotEnough,
    /// The text holds characters that do not belong there.
    Invalid,
    /// The text ends too early.
    TooShort,
    /// The text goes on after the last field.
    TooLong,
    /// The format itself is bad.
    BadFormat,
}

/// What `chrono::NaiveDateTime::parse_from_str` makes of a text under a
/// format, its fields and its error kind taken as plain values.
pub uninterp spec fn parsed_timestamp(text: Seq<char>, format: Seq<char>) -> Result<
    Timestamp,
    ParseProblem,
>;

/// The text that `chrono::NaiveDateTime::format` gives for the date and
/// time with these fields under a format, or nothing when there is no
/// such date and time or the format is bad.
pub uninterp spec fn formatted_timestamp(stamp: Timestamp, format: Seq<char>) -> Option<
    Seq<char>,
>;

/// Calls `chrono::NaiveDateTime::parse_from_str` and hands out the fields
/// of the result, or the kind of the error. Claimed of it: the result
/// depends on the text and the format alone.
#[verifier::external_body]
fn chrono_parse(text: &str, format: &str) -> (r: Result<Timestamp, ParseProblem>)
    ensures
        r == parsed_timestamp(text@, format@),
{
    match chrono::NaiveDateTime::parse_from_str(text, format) {
        Ok(t) => Ok(Timestamp { year: t.year(), month: t.month(), day: t.day(), hour: t.hour(),
            minute: t.minute(), second: t.second(), nanosecond: t.nanosecond() }),
        Err(e) => Err(match e.kind() {
            ParseErrorKind::OutOfRange => ParseProblem::OutOfRange,
            ParseErrorKind::Impossible => ParseProblem::Impossible,
            ParseErrorKind::NotEnough => ParseProblem::NotEnough,
            ParseErrorKind::Invalid => ParseProblem::Invalid,
            ParseErrorKind::TooShort => ParseProblem::TooShort,
            ParseErrorKind::TooLong => ParseProblem::TooLong,
            _ => ParseProblem::BadFormat,
        }),
    }
}

/// Builds the date and time with the given fields and calls
/// `chrono::NaiveDateTime::format` on it. Claimed of it: the result
/// depends on the fields and the format alone.
#[verifier::external_body]
fn chrono_format(stamp: Timestamp, format: &str) -> (r: Option<String>)
    ensures
        r matches Some(text) ==> formatted_timestamp(stamp, format@) == Some(text@),
        r is None ==> formatted_timestamp(stamp, format@) is None,
{
    let date = chrono::NaiveDate::from_ymd_opt(stamp.year, stamp.month, stamp.day)?;
    let moment = date.and_hms_nano_opt(
        stamp.hour, stamp.minute, stamp.second, stamp.nanosecond)?;
    let mut text = String::new();
    write!(text, "{}", moment.format(format)).ok()?;
    Some(text)
}

impl ParseProblem {
    /// The sentence that says what is wrong.
    pub open spec fn message(self) -> Seq<char> {
        match self {
            ParseProblem::OutOfRange => "input is out of range"@,
            ParseProblem::Impossible => "no possible date and time matching input"@,
            ParseProblem::NotEnough => "input is not enough for unique date and time"@,
            ParseProblem::Invalid => "input contains invalid characters"@,
            ParseProblem::TooShort => "premature end of input"@,
            ParseProblem::TooLong => "trailing input"@,
            ParseProblem::BadFormat => "bad or unsupported format string"@,
        }
    }

    /// The sentence that says what is wrong.
    pub fn describe(&self) -> (text: &'static str)
        ensures
            text@ == self.message(),
    {
        match *self {
            ParseProblem::OutOfRange => "input is out of range",
            ParseProblem::Impossible => "no possible date and time matching input",
            ParseProblem::NotEnough => "input is not enough for unique date and time",
            ParseProblem::Invalid => "input contains invalid characters",
            ParseProblem::TooShort => "premature end of input",
            ParseProblem::TooLong => "trailing input",
            ParseProblem::BadFormat => "bad or unsupported format string",
        }
    }
}

/// Reads a stored point in time.
pub fn parse_timestamp(text: &str) -> (r: Result<Timestamp, ParseProblem>)
    ensures
        r == parsed_timestamp(text@, TIMESTAMP_FORMAT@),
{
    chrono_parse(text, TIMESTAMP_FORMAT)
}

/// Writes a point in time as it is stored. Fields that are no date and
/// time give `None`.
pub fn format_timestamp(stamp: Timestamp) -> (r: Option<String>)
    ensures
        r matches Some(text) ==> formatted_timestamp(stamp, TIMESTAMP_FORMAT@) == Some(text@),
        r is None ==> formatted_timestamp(stamp, TIMESTAMP_FORMAT@) is None,
{
    chrono_format(stamp, TIMESTAMP_FORMAT)
}

/// The two ends of a span of time.
#[derive(Clone, Copy, Debug, PartialEq, Eq, Structural)]
pub struct DateRange {
    pub start: Timestamp,
    pub end: Timestamp,
}

/// Which end of a span of time could not be read, and why.
#[derive(Clone, Copy, Debug, PartialEq, Eq, Structural)]
pub enum DateRangeError {
    InvalidStart(ParseProblem),
    InvalidEnd(ParseProblem),
}

impl DateRangeError {
    /// The message that tells the caller which end is wrong and why.
    pub open spec fn message(self) -> Seq<char> {
        match self {
            DateRangeError::InvalidStart(problem) => "Invalid start date format: "@
                + problem.message(),
            DateRangeError::InvalidEnd(problem) => "Invalid end date format: "@
                + problem.message(),
        }
    }

    /// The message that tells the caller which end is wrong and why.
    pub fn describe(&self) -> (text: String)
        ensures
            text@ == self.message(),
    {
        match *self {
            DateRangeError::InvalidStart(problem) => {
                let mut text = "Invalid start date format: ".to_owned();
                text.append(problem.describe());
                text
            },
            DateRangeError::InvalidEnd(problem) => {
                let mut text = "Invalid end date format: ".to_owned();
                text.append(problem.describe());
                text
            },
        }
    }
}

/// The span between two ends that were read, or the first end that could
/// not be read: the start is looked at before the end.
pub open spec fn range_between(
    start: Result<Timestamp, ParseProblem>,
    end: Result<Timestamp, ParseProblem>,
) -> Result<DateRange, DateRangeError> {
    match start {
        Err(problem) => Err(DateRangeError::InvalidStart(problem)),
        Ok(start) => match end {
            Err(problem) => Err(DateRangeError::InvalidEnd(problem)),
            Ok(end) => Ok(DateRange { start, end }),
        },
    }
}

/// Puts two ends that were read together into a span.
pub fn combine_range(
    start: Result<Timestamp, ParseProblem>,
    end: Result<Timestamp, ParseProblem>,
) -> (r: Result<DateRange, DateRangeError>)
    ensures
        r == range_between(start, end),
{
    match start {
        Err(problem) => Err(DateRangeError::InvalidStart(problem)),
        Ok(start) => match end {
            Err(problem) => Err(DateRangeError::InvalidEnd(problem)),
            Ok(end) => Ok(DateRange { start, end }),
        },
    }
}

/// Reads the two ends of a span of time from their stored form.
pub fn parse_date_range(start: &str, end: &str) -> (r: Result<DateRange, DateRangeError>)
    ensures
        r == range_between(
            parsed_timestamp(start@, TIMESTAMP_FORMAT@),
            parsed_timestamp(end@, TIMESTAMP_FORMAT@),
        ),
{
    let first = parse_timestamp(start);
    let second = parse_timestamp(end);
    combine_range(first, second)
}

} // verus!
