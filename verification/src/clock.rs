//! Reading the monotonic clock.
//!
//! The library counts time in nanoseconds since the moment a clock was
//! started.  Nothing is known of a reading before it is taken, so every
//! function that takes one says what holds whatever the clock returned, and
//! hands the reading to a function that is exact about it.

use vstd::prelude::*;

verus! {

/// A point in time of the monotonic clock of the standard library.
#[verifier::external_type_specification]
#[verifier::external_body]
pub struct ExInstant(std::time::Instant);

/// `Instant::now` of the standard library: the current reading of the
/// monotonic clock.  Nothing is claimed of the value.
pub assume_specification[ std::time::Instant::now ]() -> (now: std::time::Instant)
;

/// `Instant::elapsed` of the standard library: the time that has passed since
/// the instant was taken.  Nothing is claimed of the value.
pub assume_specification[ std::time::Instant::elapsed ](since: &std::time::Instant) -> (elapsed:
    core::time::Duration)
;

/// `Duration::as_nanos` of the standard library: the whole duration in
/// nanoseconds.  Nothing is claimed of the value.
pub assume_specification[ core::time::Duration::as_nanos ](duration: &core::time::Duration) -> (nanos:
    u128)
;

/// A clock that counts nanoseconds from the moment it was started.
#[derive(Clone, Copy, Debug)]
pub struct Clock {
    origin: std::time::Instant,
}

impl Clock {
    /// Starts a clock now.
    pub fn start() -> (clock: Clock) {
        Clock { origin: std::time::Instant::now() }
    }

    /// The nanoseconds since the clock was started; a reading that does not
    /// fit in 64 bits is given as the largest value.
    pub fn now(&self) -> (nanos: u64) {
        let elapsed: u128 = self.origin.elapsed().as_nanos();
        saturate_nanos(elapsed)
    }
}

/// A reading of `elapsed` nanoseconds in 64 bits: the reading itself where it
/// fits, else the largest value.
pub fn saturate_nanos(elapsed: u128) -> (nanos: u64)
    ensures
        elapsed <= u64::MAX ==> nanos == elapsed,
        elapsed > u64::MAX ==> nanos == u64::MAX,
{
    if elapsed > 0xffff_ffff_ffff_ffff {
        u64::MAX
    } else {
        elapsed as u64
    }
}

} // verus!
