//! An event of the WebSocket feed, wrapped with its receive time and tags.
use vstd::prelude::*;
use serde_json::Value;
use std::collections::HashMap;
use std::time::{Duration, SystemTime, UNIX_EPOCH};

verus! {

#[verifier::external_type_specification]
#[verifier::external_body]
pub struct ExJsonValue(Value);

/// The JSON value that a JSON5 text denotes, or `None` when the text is not JSON5.
pub uninterp spec fn json5_value(text: Seq<char>) -> Option<Value>;

/// Reads a JSON5 value.
///
/// Calls `json5::from_str` into a `serde_json::Value`. The result is named:
/// it depends on the text alone.
#[verifier::external_body]
fn parse_json5_value(text: &str) -> (res: Option<Value>)
    ensures
        res == json5_value(text@),
{
    match json5::from_str::<Value>(text) {
        Ok(value) => Some(value),
        Err(_) => None,
    }
}

#[verifier::external_type_specification]
#[verifier::external_body]
pub struct ExSystemTime(SystemTime);

/// The clock's time now.
///
/// Calls `SystemTime::now` of std; it reads the clock, so nothing is stated.
#[verifier::external_body]
fn system_now() -> SystemTime {
    SystemTime::now()
}

/// The time from the Unix epoch to `t`, or `None` when `t` is before the epoch.
///
/// Calls `SystemTime::duration_since(UNIX_EPOCH)` of std. A `SystemTime` is
/// opaque here, so nothing is stated of the duration.
#[verifier::external_body]
fn since_unix_epoch(t: &SystemTime) -> Option<Duration> {
    match t.duration_since(UNIX_EPOCH) {
        Ok(since) => Some(since),
        Err(_) => None,
    }
}

/// The whole seconds of a duration.
///
/// Calls `Duration::as_secs` of std. A `Duration` is opaque here, so nothing
/// is stated of the seconds.
#[verifier::external_body]
fn duration_secs(d: &Duration) -> u64 {
    d.as_secs()
}

/// The nanoseconds of a duration past its whole seconds.
///
/// Calls `Duration::subsec_nanos` of std, documented as always below one billion.
#[verifier::external_body]
fn duration_subsec_nanos(d: &Duration) -> (res: u32)
    ensures
        res < 1_000_000_000,
{
    d.subsec_nanos()
}

/// The clock now as whole seconds since the Unix epoch and the nanoseconds
/// past that second; `None` when the clock reads before the epoch. (This is
/// the reading of `chrono::Utc::now`, without its panic before the epoch.)
pub fn unix_time_now() -> (res: Option<(u64, u32)>)
    ensures
        res matches Some(t) ==> t.1 < 1_000_000_000,
{
    let now = system_now();
    match since_unix_epoch(&now) {
        Some(since) => Some((duration_secs(&since), duration_subsec_nanos(&since))),
        None => None,
    }
}

/// The stamp of a clock reading (see [`stamp`]).
pub open spec fn spec_stamp(reading: Option<(u64, u32)>) -> Result<(i64, u32), WssEventError> {
    match reading {
        Some((secs, nanos)) => if secs <= i64::MAX {
            Ok((secs as i64, nanos))
        } else {
            Err(WssEventError::ClockOutOfRange)
        },
        None => Err(WssEventError::ClockOutOfRange),
    }
}

/// The creation stamp for a clock reading: the seconds as `i64` and the
/// nanoseconds; `ClockOutOfRange` when the clock read before the epoch or
/// past the seconds that an `i64` holds.
pub fn stamp(reading: Option<(u64, u32)>) -> (res: Result<(i64, u32), WssEventError>)
    ensures
        match reading {
            Some((secs, nanos)) => if secs <= i64::MAX {
                res == Ok::<(i64, u32), WssEventError>((secs as i64, nanos))
            } else {
                res == Err::<(i64, u32), WssEventError>(WssEventError::ClockOutOfRange)
            },
            None => res == Err::<(i64, u32), WssEventError>(WssEventError::ClockOutOfRange),
        },
{
    match reading {
        Some((secs, nanos)) => {
            if secs <= i64::MAX as u64 {
                Ok((secs as i64, nanos))
            } else {
                Err(WssEventError::ClockOutOfRange)
            }
        },
        None => Err(WssEventError::ClockOutOfRange),
    }
}

/// An event of the WebSocket feed, stamped with the UTC time it was wrapped
/// (seconds since the Unix epoch and nanoseconds past that second) and tagged
/// with the feed's tags.
pub struct WssEvent<'a> {
    pub event: Value,
    pub created_at_secs: i64,
    pub created_at_nanos: u32,
    pub tags: &'a HashMap<String, String>,
}

/// Why a message could not be wrapped.
#[derive(Debug, Clone, Copy, PartialEq, Eq, Structural)]
pub enum WssEventError {
    /// The message is not JSON5.
    NotJson5,
    /// The clock reads before the Unix epoch, or too late for a timestamp.
    ClockOutOfRange,
}

impl<'a> WssEvent<'a> {
    /// An event with the value `event` and the tags, stamped with a clock
    /// reading (see [`stamp`]).
    pub fn stamped(event: Value, tags: &'a HashMap<String, String>, reading: Option<(u64, u32)>) -> (res:
        Result<WssEvent<'a>, WssEventError>)
        ensures
            match spec_stamp(reading) {
                Err(e) => res == Err::<WssEvent<'a>, WssEventError>(e),
                Ok((secs, nanos)) => res matches Ok(ev) && ev.event == event && ev.tags == tags
                    && ev.created_at_secs == secs && ev.created_at_nanos == nanos,
            },
    {
        let (created_at_secs, created_at_nanos) = stamp(reading)?;
        Ok(WssEvent { event, created_at_secs, created_at_nanos, tags })
    }

    /// Wraps a message of the feed: its JSON5 value, stamped by
    /// [`WssEvent::stamped`] with the clock's reading taken after the message
    /// was read, and the tags. A message that is not JSON5 gives `NotJson5`
    /// whatever the clock reads.
    pub fn new(message: String, tags: &'a HashMap<String, String>) -> (res: Result<
        WssEvent<'a>,
        WssEventError,
    >)
        ensures
            json5_value(message@) is None <==> res == Err::<WssEvent<'a>, WssEventError>(
                WssEventError::NotJson5,
            ),
            res matches Ok(ev) ==> json5_value(message@) == Some(ev.event),
            res matches Ok(ev) ==> ev.tags == tags,
            res matches Ok(ev) ==> ev.created_at_secs >= 0 && ev.created_at_nanos < 1_000_000_000,
            res matches Err(e) ==> e == WssEventError::NotJson5 || e == WssEventError::ClockOutOfRange,
    {
        let event = match parse_json5_value(message.as_str()) {
            Some(event) => event,
            None => return Err(WssEventError::NotJson5),
        };
        let reading = unix_time_now();
        WssEvent::stamped(event, tags, reading)
    }
}

} // verus!
