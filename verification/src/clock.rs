//! Trusted readings of the wall clock, and the verified conversions the
//! rest of the library applies to them. Nothing is assumed of what the
//! clock returns: callers state what holds of every reading.

use vstd::prelude::*;

verus! {

/// Relies on `chrono::Utc::now` and `DateTime::timestamp`: whole seconds
/// since the Unix epoch by the system clock (negative before the epoch).
/// Nothing is promised of the value.
#[verifier::external_body]
pub(crate) fn now_unix_seconds() -> (r: i64) {
    chrono::Utc::now().timestamp()
}

/// Relies on `chrono::Utc::now` and `DateTime::timestamp_micros`:
/// microseconds since the Unix epoch by the system clock. Nothing is
/// promised of the value.
#[verifier::external_body]
pub(crate) fn now_unix_micros() -> (r: i64) {
    chrono::Utc::now().timestamp_micros()
}

/// A signed Unix timestamp as an unsigned one: readings from before the
/// epoch collapse to zero.
pub open spec fn spec_clamp_unix(ts: i64) -> u64 {
    if ts < 0 {
        0
    } else {
        ts as u64
    }
}

pub fn clamp_unix(ts: i64) -> (r: u64)
    ensures
        r == spec_clamp_unix(ts),
{
    if ts < 0 {
        0
    } else {
        ts as u64
    }
}

/// Microseconds from `start` to `end`, zero when the clock ran backwards,
/// saturated at the largest representable value.
pub open spec fn spec_elapsed_micros(start: i64, end: i64) -> u64 {
    if end <= start {
        0
    } else if end - start > u64::MAX {
        u64::MAX
    } else {
        (end - start) as u64
    }
}

pub fn elapsed_micros(start: i64, end: i64) -> (r: u64)
    ensures
        r == spec_elapsed_micros(start, end),
{
    if end <= start {
        0
    } else {
        let d: i128 = end as i128 - start as i128;
        if d > u64::MAX as i128 {
            u64::MAX
        } else {
            d as u64
        }
    }
}

} // verus!
