//! Millisecond arithmetic for measured intervals.
//!
//! Instants are plain millisecond readings of one monotonic clock, taken by
//! whoever receives an event. A measured interval is reported in sixteen bits
//! and saturates at the top of that range.

use vstd::prelude::*;

verus! {

/// Largest interval, in milliseconds, that a result can report.
pub const MAX_REPORTABLE_MS: u16 = 65535;

/// The interval from `start_ms` to `now_ms`; zero when the clock reading
/// handed in for `now_ms` lies before `start_ms`.
pub open spec fn gap_ms(start_ms: u128, now_ms: u128) -> u128 {
    if now_ms >= start_ms {
        (now_ms - start_ms) as u128
    } else {
        0
    }
}

/// `ms` cut off at the largest reportable value.
pub open spec fn clamped_ms(ms: u128) -> u16 {
    if ms > MAX_REPORTABLE_MS as u128 {
        MAX_REPORTABLE_MS
    } else {
        ms as u16
    }
}

/// Interval between two readings of the clock, never negative.
pub fn elapsed_between(start_ms: u128, now_ms: u128) -> (elapsed: u128)
    ensures
        elapsed == gap_ms(start_ms, now_ms),
{
    if now_ms >= start_ms {
        now_ms - start_ms
    } else {
        0
    }
}

/// Saturating conversion of an interval to the reportable range: values up to
/// `MAX_REPORTABLE_MS` are kept, larger ones become `MAX_REPORTABLE_MS`.
pub fn clamp_millis(ms: u128) -> (reported: u16)
    ensures
        reported == clamped_ms(ms),
        ms <= MAX_REPORTABLE_MS ==> reported == ms,
        ms > MAX_REPORTABLE_MS ==> reported == MAX_REPORTABLE_MS,
{
    if ms > MAX_REPORTABLE_MS as u128 {
        MAX_REPORTABLE_MS
    } else {
        ms as u16
    }
}

} // verus!
