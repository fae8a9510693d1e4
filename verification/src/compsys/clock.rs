//! The monotonic clock the in-editor service reads.
//!
//! An `Instant` is opaque to the verifier, so every decision that depends
//! on time is made by a verified function over plain nanosecond counts;
//! the items here only read the clock and measure gaps between readings.

use std::time::{Duration, Instant};
use vstd::prelude::*;

verus! {

/// `std::time::Instant`, carried through the service as an opaque value.
#[verifier::external_type_specification]
#[verifier::external_body]
pub struct ExInstant(Instant);

/// Calls `Instant::now`: the current reading of the monotonic clock.
/// Nothing is claimed of the value; it depends on when the call runs.
#[verifier::external_body]
pub(crate) fn clock_now() -> Instant {
    Instant::now()
}

/// Calls `Duration::from_millis`. `Duration` is opaque here, so nothing
/// is claimed of the value.
#[verifier::external_body]
pub(crate) fn millis(ms: u64) -> Duration {
    Duration::from_millis(ms)
}

/// Calls `Instant::checked_add`: the instant `budget` after `base`, or
/// `None` where that instant lies outside the clock's range. Nothing more
/// is claimed: both operands are opaque here.
#[verifier::external_body]
pub(crate) fn instant_checked_add(base: Instant, budget: Duration) -> Option<Instant> {
    base.checked_add(budget)
}

/// Calls std's `Duration / u32`: `d` divided by `n`, rounded down. std
/// panics only for a zero divisor, which `requires` leaves out.
/// `Duration` is opaque here, so nothing is claimed of the value.
#[verifier::external_body]
pub(crate) fn duration_div(d: Duration, n: u32) -> Duration
    requires
        n > 0,
{
    d / n
}

/// Calls `Instant::saturating_duration_since` and reads the gap in
/// nanoseconds: how long after `earlier` the instant `later` lies, zero
/// when `later` is not after `earlier`. Nothing is claimed of the number:
/// both readings are opaque here.
#[verifier::external_body]
pub(crate) fn nanos_between(earlier: Instant, later: Instant) -> u128 {
    later.saturating_duration_since(earlier).as_nanos()
}

} // verus!
