//! The system clock and the standard durations built from it.

use vstd::prelude::*;

verus! {

/// Timestamps are microseconds since the Unix epoch (UTC).
pub type Timestamp = i64;

/// Reads `chrono::Utc::now` and converts it with `DateTime::timestamp_micros`.
/// Nothing is stated of the value: it is whatever the system clock reads.
#[verifier::external_body]
pub(crate) fn now() -> (t: Timestamp) {
    chrono::Utc::now().timestamp_micros()
}

/// The duration `std::time::Duration::from_secs` builds from a number of seconds.
pub uninterp spec fn duration_of_secs(secs: u64) -> std::time::Duration;

/// The duration `std::time::Duration::from_micros` builds from a number of microseconds.
pub uninterp spec fn duration_of_micros(micros: u64) -> std::time::Duration;

/// Calls `std::time::Duration::from_secs`; the result is the named duration of `secs` seconds.
#[verifier::external_body]
pub(crate) fn seconds(secs: u64) -> (d: std::time::Duration)
    ensures
        d == duration_of_secs(secs),
{
    std::time::Duration::from_secs(secs)
}

/// Calls `std::time::Duration::from_micros`; the result is the named duration of `micros` microseconds.
#[verifier::external_body]
pub(crate) fn microseconds(micros: u64) -> (d: std::time::Duration)
    ensures
        d == duration_of_micros(micros),
{
    std::time::Duration::from_micros(micros)
}

} // verus!
