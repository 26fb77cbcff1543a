//! The pacing of the ticks: one tick per second on a fixed cadence.
//!
//! Instants are read from a monotonic clock and counted in nanoseconds from
//! an anchor of the caller's choosing. The wake time moves on by exactly one
//! interval after each tick, whatever the tick took, so that the cost of the
//! ticks does not build up into drift.

use vstd::prelude::*;

verus! {

/// The time from one tick to the next, in nanoseconds.
pub const TICK_INTERVAL: u64 = 1_000_000_000;

/// The instant one interval after `instant`, held at the largest instant the
/// clock can count to.
pub open spec fn one_interval_after(instant: int) -> int {
    if instant + TICK_INTERVAL <= u64::MAX {
        instant + TICK_INTERVAL
    } else {
        u64::MAX as int
    }
}

/// The time left from `now` until `wake`; none if `wake` has passed.
pub open spec fn time_until(wake: int, now: int) -> int {
    if now < wake {
        wake - now
    } else {
        0
    }
}

/// The wake that follows `ticks` ticks of a cadence started at `start`.
pub open spec fn wake_after(start: int, ticks: nat) -> int
    decreases ticks,
{
    if ticks == 0 {
        one_interval_after(start)
    } else {
        one_interval_after(wake_after(start, (ticks - 1) as nat))
    }
}

/// The cadence is fixed by its start: while the clock can count that far, the
/// wake after `ticks` ticks is `ticks + 1` whole intervals after the start,
/// whatever the ticks took.
pub proof fn lemma_fixed_cadence(start: int, ticks: nat)
    requires
        0 <= start,
        start + (ticks + 1) * TICK_INTERVAL <= u64::MAX,
    ensures
        wake_after(start, ticks) == start + (ticks + 1) * TICK_INTERVAL,
    decreases ticks,
{
    if ticks > 0 {
        lemma_fixed_cadence(start, (ticks - 1) as nat);
    }
}

/// Keeps the time at which the scheduler is next due to wake.
#[derive(Debug)]
pub struct Pacer {
    next_wake: u64,
}

impl Pacer {
    /// The instant of the next wake.
    pub closed spec fn wake(&self) -> int {
        self.next_wake as int
    }

    /// Starts the cadence at `start`: the first wake is one interval later.
    pub fn starting_at(start: u64) -> (r: Pacer)
        ensures
            r.wake() == one_interval_after(start as int),
    {
        Pacer { next_wake: later(start) }
    }

    /// The instant of the next wake.
    pub fn next_wake(&self) -> (r: u64)
        ensures
            r == self.wake(),
    {
        self.next_wake
    }

    /// How long to sleep at `now` to reach the next wake. A tick that ran past
    /// the wake leaves nothing to sleep.
    pub fn sleep_duration(&self, now: u64) -> (r: u64)
        ensures
            r == time_until(self.wake(), now as int),
            now >= self.wake() ==> r == 0,
    {
        if now < self.next_wake {
            self.next_wake - now
        } else {
            0
        }
    }

    /// Moves the next wake on by one interval.
    pub fn advance(&mut self)
        ensures
            final(self).wake() == one_interval_after(old(self).wake()),
    {
        self.next_wake = later(self.next_wake);
    }

    /// Ends a tick at `now`: returns how long to sleep until the wake that was
    /// due, and moves the next wake on by one interval.
    pub fn pause(&mut self, now: u64) -> (r: u64)
        ensures
            r == time_until(old(self).wake(), now as int),
            now >= old(self).wake() ==> r == 0,
            final(self).wake() == one_interval_after(old(self).wake()),
    {
        let duration: u64 = self.sleep_duration(now);
        self.advance();
        duration
    }
}

fn later(instant: u64) -> (r: u64)
    ensures
        r == one_interval_after(instant as int),
{
    if instant <= u64::MAX - TICK_INTERVAL {
        instant + TICK_INTERVAL
    } else {
        u64::MAX
    }
}

} // verus!
