//! The host's monotonic clock, carried as opaque `Instant` values. Readings depend on the
//! machine, so nothing is stated of them beyond their type's range.
use std::time::{Duration, Instant};
use vstd::prelude::*;

verus! {

/// Declares `std::time::Instant`, carried as an opaque value.
#[verifier::external_type_specification]
#[verifier::external_body]
pub struct ExInstant(Instant);

/// Calls `Instant::now`: the current reading of the monotonic clock.
#[verifier::external_body]
pub(crate) fn now() -> Instant {
    Instant::now()
}

/// Calls `Instant::elapsed`: the time since `started` by the monotonic clock.
#[verifier::external_body]
pub(crate) fn elapsed(started: &Instant) -> Duration {
    started.elapsed()
}

/// Calls `Duration::as_micros`: the whole microseconds of a duration.
#[verifier::external_body]
pub(crate) fn as_micros(duration: &Duration) -> u128 {
    duration.as_micros()
}

/// A microsecond count clamped into `u64` (readings past `u64::MAX` saturate).
pub fn saturating_micros(micros: u128) -> (clamped: u64)
    ensures
        clamped == (if micros <= u64::MAX { micros } else { u64::MAX as u128 }),
{
    if micros <= u64::MAX as u128 {
        micros as u64
    } else {
        u64::MAX
    }
}

/// Microseconds since `started` by the monotonic clock, saturating at `u64::MAX`.
pub(crate) fn micros_since(started: &Instant) -> u64 {
    saturating_micros(as_micros(&elapsed(started)))
}

} // verus!
