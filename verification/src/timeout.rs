//! The built-in strategy: stop once a wall-clock budget is spent.

use crate::callbacks::Callbacks;
use std::time::Duration;
use std::time::Instant;
use vstd::prelude::*;

verus! {

/// `std::time::Instant`, a reading of the monotonic clock. Nothing inside it
/// is visible here: a reading is taken, kept and handed back to the clock.
#[verifier::external_type_specification]
#[verifier::external_body]
pub struct ExInstant(Instant);

/// `Instant::now` reads the monotonic clock; nothing is claimed of the
/// reading.
pub assume_specification[ Instant::now ]() -> (now: Instant);

/// `Instant::elapsed` measures the time since the instant was taken; nothing
/// is claimed of the measurement.
pub assume_specification[ Instant::elapsed ](since: &Instant) -> (elapsed: Duration);

/// `Duration::as_nanos` gives a duration in whole nanoseconds; nothing is
/// claimed of the number.
pub assume_specification[ Duration::as_nanos ](duration: &Duration) -> (nanos: u128);

/// A strategy that stops the search once `timeout` nanoseconds have passed
/// since `started`.
pub struct Timeout {
    /// When the running solve began.
    pub started: Instant,
    /// The budget of one solve, in nanoseconds.
    pub timeout: u64,
}

impl Timeout {
    /// A strategy with a budget of `timeout` nanoseconds, counted from now
    /// until a solve begins and from that moment afterwards.
    pub fn new(timeout: u64) -> (strategy: Timeout)
        ensures
            strategy.timeout == timeout,
    {
        Timeout { started: Instant::now(), timeout }
    }

    /// Starts the clock over at `now` and keeps the budget.
    pub fn restart(&mut self, now: Instant)
        ensures
            final(self).started == now,
            final(self).timeout == old(self).timeout,
    {
        self.started = now;
    }

    /// Tells whether the budget is spent once `elapsed` nanoseconds have
    /// passed.
    pub fn expired(&self, elapsed: u128) -> (stop: bool)
        ensures
            stop == (elapsed >= self.timeout),
    {
        elapsed >= self.timeout as u128
    }
}

impl Callbacks for Timeout {
    /// The clock starts over; the budget stays.
    open spec fn after_started(&self, next: &Self) -> bool {
        next.timeout == self.timeout
    }

    /// A poll changes nothing, and an empty budget is spent at once. With any
    /// other budget the answer depends on the clock.
    open spec fn after_terminate(&self, next: &Self, stop: bool) -> bool {
        &&& *next == *self
        &&& self.timeout == 0 ==> stop
    }

    fn started(&mut self) {
        self.restart(Instant::now());
    }

    fn terminate(&mut self) -> (stop: bool) {
        let elapsed = self.started.elapsed().as_nanos();
        self.expired(elapsed)
    }
}

} // verus!
