//! Readings of the monotonic microsecond timer.

use vstd::prelude::*;

verus! {

/// Microseconds in one millisecond.
pub const MICROS_PER_MILLI: u64 = 1000;

/// A reading of the monotonic timer, in microseconds since it started.
#[derive(Clone, Copy, Debug, PartialEq, Eq, Structural)]
pub struct Instant {
    ticks: u64,
}

/// Whether more than `micros` microseconds lie between the earlier reading
/// `since` and the later reading `now`. A reading that is not later than
/// `since` has let no time pass.
pub open spec fn elapsed_more_than(since: Instant, now: Instant, micros: u64) -> bool {
    now@ - since@ > micros as int
}

impl View for Instant {
    type V = int;

    /// The reading as a number of microseconds.
    closed spec fn view(&self) -> int {
        self.ticks as int
    }
}

impl Instant {
    /// The reading of `ticks` microseconds.
    pub fn from_ticks(ticks: u64) -> (at: Instant)
        ensures
            at@ == ticks as int,
    {
        Instant { ticks }
    }

    /// The reading as a number of microseconds.
    pub fn ticks(&self) -> (ticks: u64)
        ensures
            ticks as int == self@,
    {
        self.ticks
    }

    /// Whether more than `micros` microseconds have passed at this reading
    /// since the reading `since`.
    pub fn has_elapsed(&self, since: Instant, micros: u64) -> (elapsed: bool)
        ensures
            elapsed == elapsed_more_than(since, *self, micros),
    {
        self.ticks >= since.ticks && self.ticks - since.ticks > micros
    }
}

} // verus!
