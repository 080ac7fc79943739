//! A resettable stopwatch over the monotonic clock.
use std::time::Instant;
use vstd::prelude::*;

verus! {

#[verifier::external_type_specification]
#[verifier::external_body]
pub struct ExInstant(Instant);

/// Relies on `std::time::Instant::now`: an opaque measurement of the
/// monotonic clock. The value depends on the time, so nothing is promised
/// of it.
pub assume_specification[ Instant::now ]() -> Instant;

/// Remembers when it was last set.
pub struct Timer {
    set_time: Instant,
}

impl Timer {
    /// A timer set to now.
    pub fn new() -> Timer {
        Timer { set_time: Instant::now() }
    }

    /// Sets the timer to now.
    pub fn reset(&mut self) {
        self.set_time = Instant::now();
    }
}

} // verus!
