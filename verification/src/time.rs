//! Reading and writing instants as text, which is left to `chrono`.

use crate::models::Timestamp;
use vstd::prelude::*;

verus! {

/// `chrono::ParseError`, which says why a text is no date or no time. Nothing
/// inside it is visible here.
#[verifier::external_type_specification]
#[verifier::external_body]
pub struct ExParseError(chrono::ParseError);

/// The RFC 3339 text of the instant `secs` seconds and `nanos` nanoseconds after
/// 1970-01-01T00:00:00 UTC as `chrono` writes it, and nothing where `chrono` has
/// no date for that instant.
pub uninterp spec fn rfc3339_text(secs: i64, nanos: u32) -> Option<Seq<char>>;

/// The start of the day that `chrono` reads in `text` by `format`, in seconds
/// since 1970-01-01T00:00:00 UTC, and nothing where it reads no date.
pub uninterp spec fn date_start(text: Seq<char>, format: Seq<char>) -> Option<i64>;

/// The time of day that `chrono` reads in `text` by `format`, as the seconds
/// since midnight and the nanoseconds past that second, and nothing where it
/// reads no time.
pub uninterp spec fn time_of_day(text: Seq<char>, format: Seq<char>) -> Option<(u32, u32)>;

/// `chrono::DateTime::to_rfc3339` on the UTC date and time that
/// `chrono::DateTime::from_timestamp` makes of the two numbers. The text is a
/// function of the two numbers alone; nothing more is claimed of it.
#[verifier::external_body]
pub(crate) fn rfc3339(secs: i64, nanos: u32) -> (r: Option<String>)
    ensures
        match r {
            Some(text) => rfc3339_text(secs, nanos) == Some(text@),
            None => rfc3339_text(secs, nanos) is None,
        },
{
    match chrono::DateTime::from_timestamp(secs, nanos) {
        Some(instant) => Some(instant.to_rfc3339()),
        None => None,
    }
}

/// `chrono::NaiveDate::parse_from_str`, the date handed out as the UNIX
/// timestamp of its midnight in UTC. What is read is a function of the text and
/// the format alone; nothing more is claimed of it.
#[verifier::external_body]
pub(crate) fn read_date(text: &str, format: &str) -> (r: Result<i64, chrono::ParseError>)
    ensures
        match r {
            Ok(start) => date_start(text@, format@) == Some(start),
            Err(_) => date_start(text@, format@) is None,
        },
{
    match chrono::NaiveDate::parse_from_str(text, format) {
        Ok(date) => Ok(date.and_time(chrono::NaiveTime::MIN).and_utc().timestamp()),
        Err(e) => Err(e),
    }
}

/// `chrono::NaiveTime::parse_from_str`, the time handed out as its seconds since
/// midnight and its nanoseconds. What is read is a function of the text and the
/// format alone; nothing more is claimed of it.
#[verifier::external_body]
pub(crate) fn read_time(text: &str, format: &str) -> (r: Result<(u32, u32), chrono::ParseError>)
    ensures
        match r {
            Ok(time) => time_of_day(text@, format@) == Some(time),
            Err(_) => time_of_day(text@, format@) is None,
        },
{
    match chrono::NaiveTime::parse_from_str(text, format) {
        Ok(time) => Ok(
            (
                chrono::Timelike::num_seconds_from_midnight(&time),
                chrono::Timelike::nanosecond(&time),
            ),
        ),
        Err(e) => Err(e),
    }
}

/// Why a deadline cannot be read.
#[derive(Debug, Clone, Copy, PartialEq, Eq, Structural)]
pub enum DeadlineError {
    /// The date is not written as `YYYY-MM-DD`.
    InvalidDate,
    /// The time is not written as `HH:MM`.
    InvalidTime,
}

/// The instant of a day's start and a time of that day, where the day is given;
/// the error that says what is missing otherwise.
pub open spec fn deadline_of(start: Option<i64>, time: Option<(u32, u32)>) -> Result<
    Timestamp,
    DeadlineError,
> {
    match start {
        None => Err(DeadlineError::InvalidDate),
        Some(start) => match time {
            None => Err(DeadlineError::InvalidTime),
            Some(time) => if start + time.0 <= i64::MAX {
                Ok(Timestamp { secs: (start + time.0) as i64, nanos: time.1 })
            } else {
                Err(DeadlineError::InvalidDate)
            },
        },
    }
}

/// Puts a day's start and a time of day together.
pub fn deadline_at(start: Option<i64>, time: Option<(u32, u32)>) -> (r: Result<
    Timestamp,
    DeadlineError,
>)
    ensures
        r == deadline_of(start, time),
{
    match start {
        None => Err(DeadlineError::InvalidDate),
        Some(start) => match time {
            None => Err(DeadlineError::InvalidTime),
            Some(time) => {
                if start > i64::MAX - (time.0 as i64) {
                    Err(DeadlineError::InvalidDate)
                } else {
                    Ok(Timestamp { secs: start + time.0 as i64, nanos: time.1 })
                }
            },
        },
    }
}

/// Reads a deadline in UTC from a date written as `YYYY-MM-DD` and a time
/// written as `HH:MM`.
pub fn parse_deadline(date: &str, time: &str) -> (r: Result<Timestamp, DeadlineError>)
    ensures
        r == deadline_of(date_start(date@, "%Y-%m-%d"@), time_of_day(time@, "%H:%M"@)),
{
    let start = match read_date(date, "%Y-%m-%d") {
        Ok(start) => Some(start),
        Err(_) => None,
    };
    let time = match read_time(time, "%H:%M") {
        Ok(time) => Some(time),
        Err(_) => None,
    };
    deadline_at(start, time)
}

} // verus!
