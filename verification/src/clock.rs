//! The monotonic clock by which cached responses are aged.

use std::time::Instant;
use vstd::prelude::*;

verus! {

/// `std::time::Instant`, a measurement of the monotonic clock, carried as
/// an opaque value.
#[verifier::external_type_specification]
#[verifier::external_body]
pub struct ExInstant(Instant);

/// Nanoseconds in one second.
pub const NANOS_PER_SECOND: u128 = 1_000_000_000;

/// A clock that counts nanoseconds from the moment it was started.
pub struct Clock {
    origin: Instant,
}

/// `std::time::Instant::now`: the current reading of the monotonic clock.
/// Nothing is claimed of the reading.
#[verifier::external_body]
fn instant_now() -> (now: Instant) {
    Instant::now()
}

/// `std::time::Instant::elapsed`, in nanoseconds: the time that has passed
/// since `origin` was measured. Nothing is claimed of the amount.
#[verifier::external_body]
fn nanos_since(origin: &Instant) -> (nanos: u128) {
    origin.elapsed().as_nanos()
}

impl Clock {
    /// Starts a clock at the present moment.
    pub(crate) fn start() -> (clock: Clock) {
        Clock { origin: instant_now() }
    }

    /// The nanoseconds elapsed since the clock was started.
    pub(crate) fn now(&self) -> (nanos: u128) {
        nanos_since(&self.origin)
    }

    /// A second handle on the same clock: both count from the same moment.
    pub(crate) fn share(&self) -> (clock: Clock)
        ensures
            clock == *self,
    {
        Clock { origin: self.origin }
    }
}

/// The whole seconds between a creation time and a later reading of the
/// same clock; zero if the reading is not later.
pub open spec fn age_seconds(created: u128, now: u128) -> nat {
    if now >= created {
        ((now - created) / NANOS_PER_SECOND as int) as nat
    } else {
        0
    }
}

/// Computes the whole seconds between a creation time and a later reading.
pub fn seconds_between(created: u128, now: u128) -> (seconds: u128)
    ensures
        seconds == age_seconds(created, now),
{
    if now >= created {
        (now - created) / NANOS_PER_SECOND
    } else {
        0
    }
}

} // verus!
