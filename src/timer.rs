use std::time::Instant;
use vstd::prelude::*;

verus! {

#[verifier::external_type_specification]
#[verifier::external_body]
pub struct ExInstant(Instant);

/// Relies on std::time::Instant::now: reads the monotonic clock.
#[verifier::external_body]
fn instant_now() -> (r: Instant) {
    Instant::now()
}

/// Relies on std::time::Instant::elapsed and Duration::as_nanos: the time
/// since `start`, in nanoseconds.
#[verifier::external_body]
fn elapsed_nanos(start: &Instant) -> (r: u128) {
    start.elapsed().as_nanos()
}

pub const NANOS_PER_SEC: u128 = 1_000_000_000;

/// A countdown of a whole number of seconds, started when it is made.
#[derive(Debug)]
pub struct Timer {
    start_time: Instant,
    duration_secs: u64,
}

impl Timer {
    pub closed spec fn seconds(&self) -> u64 {
        self.duration_secs
    }

    /// The countdown's length in nanoseconds.
    pub open spec fn duration_nanos(&self) -> int {
        self.seconds() * NANOS_PER_SEC
    }

    pub fn new(seconds: u64) -> (r: Timer)
        ensures
            r.seconds() == seconds,
    {
        Timer { start_time: instant_now(), duration_secs: seconds }
    }

    pub fn duration_secs(&self) -> (r: u64)
        ensures
            r == self.seconds(),
    {
        self.duration_secs
    }

    /// Whether `elapsed` nanoseconds are strictly more than the countdown.
    pub fn is_elapsed_after(&self, elapsed: u128) -> (r: bool)
        ensures
            r == (elapsed > self.duration_nanos()),
    {
        elapsed > self.duration_secs as u128 * NANOS_PER_SEC
    }

    /// Nanoseconds left on the countdown once `elapsed` nanoseconds have passed.
    pub fn remaining_after(&self, elapsed: u128) -> (r: u128)
        ensures
            elapsed > self.duration_nanos() ==> r == 0,
            elapsed <= self.duration_nanos() ==> r == self.duration_nanos() - elapsed,
    {
        let total = self.duration_secs as u128 * NANOS_PER_SEC;
        if elapsed > total {
            0
        } else {
            total - elapsed
        }
    }

    /// Nanoseconds since the countdown started, by the clock.
    pub fn elapsed(&self) -> (r: u128) {
        elapsed_nanos(&self.start_time)
    }

    /// Whether the countdown has run out, by the clock.
    pub fn is_elapsed(&self) -> (r: bool) {
        let elapsed = elapsed_nanos(&self.start_time);
        self.is_elapsed_after(elapsed)
    }

    /// Nanoseconds left on the countdown, by the clock; never more than its length.
    pub fn remaining(&self) -> (r: u128)
        ensures
            r <= self.duration_nanos(),
    {
        let elapsed = elapsed_nanos(&self.start_time);
        self.remaining_after(elapsed)
    }
}

} // verus!
