//! Reading the instants that the exchange writes: as a text of seconds, or
//! as a date and a time of day.

use vstd::prelude::*;
use crate::models::common::Timestamp;

verus! {

/// Why a text of seconds gave no instant.
#[derive(PartialEq, Eq, Clone, Copy, Debug, Structural)]
pub enum TimestampError {
    /// There is no text.
    Missing,
    /// The text is no whole number that fits in 64 bits.
    NotANumber,
    /// The number is beyond the dates that `chrono` can hold.
    OutOfRange,
}

/// The number that `str::parse::<i64>` reads from a text, where it reads
/// one.
pub uninterp spec fn written_seconds(text: Seq<char>) -> Option<i64>;

/// Whether `chrono::DateTime::from_timestamp` has an instant for these
/// seconds and nanoseconds.
pub uninterp spec fn representable(seconds: i64, nanos: u32) -> bool;

/// The instant that `chrono::DateTime::parse_from_rfc3339` reads from a text,
/// as its seconds and nanoseconds, where it reads one.
pub uninterp spec fn written_instant(text: Seq<char>) -> Option<(i64, u32)>;

/// Calls `str::parse::<i64>`; its error is dropped.
#[verifier::external_body]
fn parse_seconds(text: &str) -> (seconds: Option<i64>)
    ensures
        seconds == written_seconds(text@),
{
    text.parse::<i64>().ok()
}

/// Calls `chrono::DateTime::from_timestamp` and says whether it returned an
/// instant.
#[verifier::external_body]
fn is_representable(seconds: i64, nanos: u32) -> (held: bool)
    ensures
        held == representable(seconds, nanos),
{
    chrono::DateTime::from_timestamp(seconds, nanos).is_some()
}

/// Calls `chrono::DateTime::parse_from_rfc3339` and takes the seconds and
/// the nanoseconds of what it returns; its error is dropped.
#[verifier::external_body]
fn parse_instant(text: &str) -> (instant: Option<(i64, u32)>)
    ensures
        instant == written_instant(text@),
{
    match chrono::DateTime::parse_from_rfc3339(text) {
        Ok(read) => Some((read.timestamp(), read.timestamp_subsec_nanos())),
        Err(_) => None,
    }
}

/// The instant that a text of whole seconds stands for.
pub open spec fn instant_of(timestamp: Option<String>) -> Result<Timestamp, TimestampError> {
    match timestamp {
        None => Err(TimestampError::Missing),
        Some(text) => match written_seconds(text@) {
            None => Err(TimestampError::NotANumber),
            Some(seconds) => if representable(seconds, 0) {
                Ok(Timestamp { seconds, nanos: 0 })
            } else {
                Err(TimestampError::OutOfRange)
            },
        },
    }
}

/// Reads an instant that must be there: a text of whole seconds since the
/// start of 1970.
pub fn string_timestamp_deserialize(timestamp: Option<String>) -> (instant: Result<
    Timestamp,
    TimestampError,
>)
    ensures
        instant == instant_of(timestamp),
{
    match timestamp {
        None => Err(TimestampError::Missing),
        Some(text) => match parse_seconds(text.as_str()) {
            None => Err(TimestampError::NotANumber),
            Some(seconds) => if is_representable(seconds, 0) {
                Ok(Timestamp { seconds, nanos: 0 })
            } else {
                Err(TimestampError::OutOfRange)
            },
        },
    }
}

/// Reads an instant that may be missing: no text is no instant, and a text
/// is read as `string_timestamp_deserialize` reads it.
pub fn option_timestamp_deserialize(timestamp: Option<String>) -> (instant: Result<
    Option<Timestamp>,
    TimestampError,
>)
    ensures
        match timestamp {
            None => instant == Ok::<Option<Timestamp>, TimestampError>(None),
            Some(_) => match instant_of(timestamp) {
                Ok(read) => instant == Ok::<Option<Timestamp>, TimestampError>(Some(read)),
                Err(e) => instant == Err::<Option<Timestamp>, TimestampError>(e),
            },
        },
{
    if timestamp.is_none() {
        return Ok(None);
    }
    match string_timestamp_deserialize(timestamp) {
        Ok(read) => Ok(Some(read)),
        Err(e) => Err(e),
    }
}

/// Reads an instant written as a date and a time of day with an offset.
/// No text, and a text that is no such date, are no instant.
pub fn date_string_deserialize(text: Option<String>) -> (instant: Option<Timestamp>)
    ensures
        instant == match text {
            None => None,
            Some(text) => match written_instant(text@) {
                Some((seconds, nanos)) => Some(Timestamp { seconds, nanos }),
                None => None,
            },
        },
{
    match text {
        None => None,
        Some(text) => match parse_instant(text.as_str()) {
            Some((seconds, nanos)) => Some(Timestamp { seconds, nanos }),
            None => None,
        },
    }
}

} // verus!
