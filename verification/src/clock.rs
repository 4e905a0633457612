//! Calendar arithmetic from `chrono`, behind trusted items.
use chrono::{DateTime, TimeZone, Utc};
use vstd::prelude::*;

verus! {

/// The RFC 3339 text (UTC offset `+00:00`) of the instant `seconds` after
/// the Unix epoch, or nothing when chrono cannot represent that instant.
pub uninterp spec fn rfc3339_from_unix(seconds: i64) -> Option<Seq<char>>;

/// Seconds, as `TimeDelta::num_seconds` counts them, from the instant
/// `now_seconds` + `now_nanos` after the Unix epoch until the instant that
/// the RFC 3339 text `text` denotes; nothing when the text does not parse or
/// the current instant cannot be represented.
pub uninterp spec fn rfc3339_seconds_until(text: Seq<char>, now_seconds: i64, now_nanos: u32) -> Option<
    i64,
>;

/// Calls `Utc.timestamp_opt(seconds, 0).single()` and formats the instant
/// with `DateTime::to_rfc3339`. The contract only names the result: it is a
/// function of `seconds` alone.
#[verifier::external_body]
pub(crate) fn unix_to_rfc3339(seconds: i64) -> (text: Option<String>)
    ensures
        match text {
            Some(t) => rfc3339_from_unix(seconds) == Some(t@),
            None => rfc3339_from_unix(seconds) is None,
        },
{
    match Utc.timestamp_opt(seconds, 0).single() {
        Some(instant) => Some(instant.to_rfc3339()),
        None => None,
    }
}

/// Builds the current instant with `DateTime::from_timestamp`, parses `text`
/// with `DateTime::parse_from_rfc3339`, subtracts, and reads
/// `TimeDelta::num_seconds`. The contract only names the result: it is a
/// function of the three arguments alone.
#[verifier::external_body]
pub(crate) fn seconds_until(text: &str, now_seconds: i64, now_nanos: u32) -> (seconds: Option<i64>)
    ensures
        seconds == rfc3339_seconds_until(text@, now_seconds, now_nanos),
{
    let now = DateTime::from_timestamp(now_seconds, now_nanos)?;
    match DateTime::parse_from_rfc3339(text) {
        Ok(instant) => Some((instant.with_timezone(&Utc) - now).num_seconds()),
        Err(_) => None,
    }
}

} // verus!
