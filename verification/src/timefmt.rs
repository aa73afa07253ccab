//! Timestamp rendering, delegated to the chrono crate.
//!
//! A UTC rendering is a function of the timestamp alone, so its result is
//! named by [`utc_time_text`] and contracts speak of that name. A
//! local-time rendering depends on the machine's time zone, so nothing is
//! promised of its text.

use vstd::prelude::*;
use chrono::{DateTime, Local};

verus! {

/// The last second of year 9999: timestamps up to here, with a nanosecond
/// part below one billion, are guaranteed to render.
pub const MAX_RENDERED_TIMESTAMP_SECS: i64 = 253_402_300_799;

/// Whether a rendering of the timestamp is owed.
pub open spec fn renders(secs: i64, nanos: u32) -> bool {
    0 <= secs <= MAX_RENDERED_TIMESTAMP_SECS && nanos < 1_000_000_000
}

/// What chrono renders for this timestamp in UTC, as
/// `%Y-%m-%d %H:%M:%S`. The rendering depends on the timestamp alone.
pub uninterp spec fn utc_time_text(secs: i64, nanos: u32) -> Seq<char>;

/// Relies on chrono's `DateTime::from_timestamp` and `DateTime::format`:
/// `from_timestamp` is `None` only for an out-of-range timestamp or an
/// invalid nanosecond part, and the `%Y-%m-%d %H:%M:%S` rendering of a
/// UTC datetime depends on the timestamp alone.
#[verifier::external_body]
pub(crate) fn format_utc_timestamp(secs: i64, nanos: u32) -> (r: Option<String>)
    ensures
        r matches Some(text) ==> text@ == utc_time_text(secs, nanos),
        renders(secs, nanos) ==> r is Some,
{
    match DateTime::from_timestamp(secs, nanos) {
        Some(datetime) => Some(datetime.format("%Y-%m-%d %H:%M:%S").to_string()),
        None => None,
    }
}

/// Relies on chrono's `DateTime::from_timestamp`, `with_timezone` and the
/// `Display` of `DateTime<Local>`: `from_timestamp` is `None` only for an
/// out-of-range timestamp or an invalid nanosecond part. The text depends
/// on the machine's time zone, so nothing is promised of it.
#[verifier::external_body]
pub fn system_time_to_string(secs: i64, nanos: u32) -> (r: Option<String>)
    ensures
        renders(secs, nanos) ==> r is Some,
{
    match DateTime::from_timestamp(secs, nanos) {
        Some(datetime) => Some(datetime.with_timezone(&Local).to_string()),
        None => None,
    }
}

} // verus!
