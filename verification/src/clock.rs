//! Reading the wall clock, and the time texts derived from it.

use vstd::prelude::*;
use std::time::{Duration, SystemTime};
use crate::format::{decimal, push_decimal, push_str, push_two_digits, two_digits};

verus! {

/// Declares std's system time to Verus as an opaque type.
#[verifier::external_type_specification]
#[verifier::external_body]
pub struct ExSystemTime(SystemTime);

/// The current system time.
///
/// Trusted: calls `SystemTime::now`; nothing is stated about the result.
#[verifier::external_body]
pub(crate) fn system_now() -> SystemTime {
    SystemTime::now()
}

/// The time from the Unix epoch to `time`, or `None` when `time` lies before
/// the epoch.
///
/// Trusted: calls `SystemTime::duration_since` with `UNIX_EPOCH`, whose error
/// (a time before the epoch) becomes `None`; nothing is stated about the value.
#[verifier::external_body]
pub(crate) fn since_epoch(time: &SystemTime) -> Option<Duration> {
    time.duration_since(std::time::UNIX_EPOCH).ok()
}

/// The whole seconds of a duration.
///
/// Trusted: calls `Duration::as_secs`; the duration is opaque here, so nothing
/// is stated about the value.
#[verifier::external_body]
pub(crate) fn whole_seconds(duration: &Duration) -> u64 {
    duration.as_secs()
}

/// The current Unix time in seconds, if the clock is past the epoch.
pub fn unix_now() -> Option<u64> {
    let now = system_now();
    match since_epoch(&now) {
        Some(duration) => Some(whole_seconds(&duration)),
        None => None,
    }
}

/// The Unix time as the clock reading gives it: a clock before the epoch counts
/// as the moment itself; later times are reinterpreted as `i64`.
pub open spec fn now_or(now: Option<u64>, seconds: i64) -> i64 {
    match now {
        Some(secs) => #[verifier::truncate] (secs as i64),
        None => seconds,
    }
}

/// Seconds elapsed from `seconds` to the clock reading, never negative; the
/// difference wraps like `i64` arithmetic.
pub open spec fn elapsed(now: Option<u64>, seconds: i64) -> int {
    let diff = now_or(now, seconds).wrapping_sub(seconds);
    if diff < 0 { 0 } else { diff as int }
}

/// The relative description of a moment that lies `diff` seconds back.
pub open spec fn relative_text(diff: int) -> Seq<char> {
    if diff < 60 {
        "Just now"@
    } else if diff < 3600 {
        decimal((diff / 60) as nat) + " minutes ago"@
    } else if diff < 86400 {
        decimal((diff / 3600) as nat) + " hours ago"@
    } else {
        decimal((diff / 86400) as nat) + " days ago"@
    }
}

/// Describes the Unix time `seconds` relative to the clock reading `now`.
pub fn relative_time_at(now: Option<u64>, seconds: i64) -> (res: String)
    ensures
        res@ == relative_text(elapsed(now, seconds)),
{
    let now_secs: i64 = match now {
        Some(secs) => #[verifier::truncate] (secs as i64),
        None => seconds,
    };
    let raw: i64 = now_secs.wrapping_sub(seconds);
    let diff: i64 = if raw < 0 { 0 } else { raw };
    let mut out = String::new();
    if diff < 60 {
        push_str(&mut out, "Just now");
    } else if diff < 3600 {
        push_decimal(&mut out, (diff / 60) as u64);
        push_str(&mut out, " minutes ago");
    } else if diff < 86400 {
        push_decimal(&mut out, (diff / 3600) as u64);
        push_str(&mut out, " hours ago");
    } else {
        push_decimal(&mut out, (diff / 86400) as u64);
        push_str(&mut out, " days ago");
    }
    out
}

/// Describes the Unix time `seconds` relative to now.
pub fn relative_time(seconds: i64) -> (res: String)
    ensures
        exists|now: Option<u64>| res@ == relative_text(elapsed(now, seconds)),
{
    let now = unix_now();
    relative_time_at(now, seconds)
}

/// The time of day of a Unix time, as `HH:MM:SS` in UTC.
pub open spec fn clock_text(seconds: nat) -> Seq<char> {
    two_digits((seconds / 3600) % 24) + ":"@ + two_digits((seconds / 60) % 60) + ":"@ + two_digits(seconds % 60)
}

/// Formats the Unix time `seconds` as `HH:MM:SS` (UTC).
pub fn timestamp_at(seconds: u64) -> (res: String)
    ensures
        res@ == clock_text(seconds as nat),
{
    let mut out = String::new();
    push_two_digits(&mut out, (seconds / 3600) % 24);
    push_str(&mut out, ":");
    push_two_digits(&mut out, (seconds / 60) % 60);
    push_str(&mut out, ":");
    push_two_digits(&mut out, seconds % 60);
    out
}

} // verus!
