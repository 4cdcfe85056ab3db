//! Timers of the executor.

use vstd::prelude::*;
use std::time::Duration;
use async_io::Timer;

verus! {

#[verifier::external_type_specification]
#[verifier::external_body]
pub struct ExTimer(Timer);

/// `async_io::Timer::after`: a timer that fires once `duration` has passed
/// from now. Its deadline depends on the clock, so nothing is claimed of
/// the timer returned; the call does not panic (an unrepresentable deadline
/// gives a timer that never fires).
pub assume_specification[ Timer::after ](duration: Duration) -> Timer;

/// A future that completes once `duration` has passed.
pub fn sleep(duration: Duration) -> Timer {
    Timer::after(duration)
}

} // verus!
