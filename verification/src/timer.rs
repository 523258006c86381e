//! Repeating countdown timers.

use bevy::time::{Timer, TimerMode};
use std::time::Duration;
use vstd::prelude::*;

verus! {

/// Elapsed time left on a repeating timer of length `duration` that stood at
/// `elapsed` and is advanced by `delta`: the total wraps around the duration.
pub open spec fn elapsed_after_tick(duration: nat, elapsed: nat, delta: nat) -> nat {
    let total = elapsed + delta;
    if total < duration {
        total
    } else if duration == 0 {
        0
    } else {
        total % duration
    }
}

/// How often a repeating timer of length `duration` that stood at `elapsed`
/// runs out while it is advanced by `delta`, as a 32-bit counter reports it.
pub open spec fn completions_of_tick(duration: nat, elapsed: nat, delta: nat) -> nat {
    let total = elapsed + delta;
    if total < duration {
        0
    } else if duration == 0 {
        0xffff_ffff
    } else {
        (total / duration) % 0x1_0000_0000
    }
}

/// Advances a repeating `bevy::time::Timer` by `delta` nanoseconds.
///
/// The timer is rebuilt from its duration and elapsed time, ticked once with
/// `Timer::tick`, and read back. Trusted: the elapsed time wraps around the
/// duration, and the completion count is the quotient truncated to 32 bits
/// (`u32::MAX` for a zero duration), as `Timer::tick` computes them for
/// `TimerMode::Repeating`.
#[verifier::external_body]
fn tick_repeating(duration: u64, elapsed: u64, delta: u64) -> (after: (u64, u32))
    ensures
        after.0 == elapsed_after_tick(duration as nat, elapsed as nat, delta as nat),
        after.1 == completions_of_tick(duration as nat, elapsed as nat, delta as nat),
{
    let mut timer = Timer::new(Duration::from_nanos(duration), TimerMode::Repeating);
    timer.set_elapsed(Duration::from_nanos(elapsed));
    timer.tick(Duration::from_nanos(delta));
    (timer.elapsed().as_nanos() as u64, timer.times_finished_this_tick())
}

/// A countdown that restarts by itself each time it runs out. All times are
/// in nanoseconds.
#[derive(Clone, Copy, Debug, PartialEq, Eq)]
pub struct RepeatingTimer {
    /// Length of one period.
    pub duration: u64,
    /// Time counted in the current period.
    pub elapsed: u64,
    /// How often the latest tick made the timer run out.
    pub times_finished_this_tick: u32,
}

impl RepeatingTimer {
    /// The elapsed time lies inside the current period.
    pub open spec fn wf(self) -> bool {
        if self.duration == 0 {
            self.elapsed == 0
        } else {
            self.elapsed < self.duration
        }
    }

    /// A fresh timer.
    pub open spec fn spec_new(duration: u64) -> RepeatingTimer {
        RepeatingTimer { duration, elapsed: 0, times_finished_this_tick: 0 }
    }

    /// The timer after `delta` more nanoseconds.
    pub open spec fn spec_tick(self, delta: u64) -> RepeatingTimer {
        RepeatingTimer {
            duration: self.duration,
            elapsed: elapsed_after_tick(
                self.duration as nat,
                self.elapsed as nat,
                delta as nat,
            ) as u64,
            times_finished_this_tick: completions_of_tick(
                self.duration as nat,
                self.elapsed as nat,
                delta as nat,
            ) as u32,
        }
    }

    /// Whether the latest tick made the timer run out.
    pub open spec fn spec_just_finished(self) -> bool {
        self.times_finished_this_tick > 0
    }

    /// The timer at the start of a period.
    pub open spec fn spec_reset(self) -> RepeatingTimer {
        RepeatingTimer { duration: self.duration, elapsed: 0, times_finished_this_tick: 0 }
    }

    /// A fresh timer with a period of `duration` nanoseconds.
    pub fn new(duration: u64) -> (timer: Self)
        ensures
            timer == Self::spec_new(duration),
            timer.wf(),
    {
        RepeatingTimer { duration, elapsed: 0, times_finished_this_tick: 0 }
    }

    /// Advances the timer by `delta` nanoseconds.
    pub fn tick(&mut self, delta: u64)
        ensures
            *final(self) == old(self).spec_tick(delta),
            final(self).wf(),
    {
        let after = tick_repeating(self.duration, self.elapsed, delta);
        self.elapsed = after.0;
        self.times_finished_this_tick = after.1;
    }

    /// Whether the latest tick made the timer run out.
    pub fn just_finished(&self) -> (finished: bool)
        ensures
            finished == self.spec_just_finished(),
    {
        self.times_finished_this_tick > 0
    }

    /// Starts the current period over.
    pub fn reset(&mut self)
        ensures
            *final(self) == old(self).spec_reset(),
            final(self).wf(),
    {
        self.elapsed = 0;
        self.times_finished_this_tick = 0;
    }
}

} // verus!
