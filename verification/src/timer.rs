use bevy::time::{Timer, TimerMode};
use std::time::Duration;
use vstd::prelude::*;

verus! {

/// How a countdown behaves once it reaches its duration.
#[derive(Clone, Copy, Debug, PartialEq, Eq, Structural)]
pub enum Repeat {
    /// Stops at its duration and stays finished.
    Once,
    /// Wraps around and keeps counting.
    Repeating,
}

/// What a `bevy` timer gives back after one tick, from the plain state it
/// started in: the new elapsed time and how many times it finished.
///
/// A one-shot timer clamps at its duration and, once there, never fires
/// again; a repeating one wraps around, and fires once per whole duration
/// that the elapsed time covers (the count is cut to 32 bits, as bevy does).
pub open spec fn tick_outcome(duration_ns: u64, elapsed_ns: u64, repeat: Repeat, delta_ns: u64) -> (u64, u32) {
    let total: int = elapsed_ns + delta_ns;
    match repeat {
        Repeat::Repeating => ((total % (duration_ns as int)) as u64, (total / (duration_ns as int)) as u32),
        Repeat::Once => {
            if elapsed_ns == duration_ns {
                (duration_ns, 0u32)
            } else if total >= duration_ns {
                (duration_ns, 1u32)
            } else {
                (total as u64, 0u32)
            }
        },
    }
}

/// Ticks a `bevy::time::Timer` rebuilt from plain values.
///
/// The timer is made with `Timer::new`, given its elapsed time with
/// `set_elapsed`, ticked once by zero (which puts bevy's own `finished` flag
/// where the elapsed time says it is) and then by `delta_ns`.
/// Trusted: the result is `Timer::elapsed` and `Timer::times_finished_this_tick`
/// after those calls, which bevy's source shows to be `tick_outcome`: a
/// one-shot timer clamps at its duration and fires once, a finished one-shot
/// timer stays put, a repeating one keeps the remainder and counts the
/// whole durations passed (`as u32`). Paused timers never occur here.
#[verifier::external_body]
fn bevy_timer_tick(duration_ns: u64, elapsed_ns: u64, repeat: Repeat, delta_ns: u64) -> (r: (u64, u32))
    requires
        duration_ns > 0,
        elapsed_ns <= duration_ns,
        repeat == Repeat::Repeating ==> elapsed_ns < duration_ns,
    ensures
        r == tick_outcome(duration_ns, elapsed_ns, repeat, delta_ns),
{
    let mode = match repeat {
        Repeat::Once => TimerMode::Once,
        Repeat::Repeating => TimerMode::Repeating,
    };
    let mut timer = Timer::new(Duration::from_nanos(duration_ns), mode);
    timer.set_elapsed(Duration::from_nanos(elapsed_ns));
    timer.tick(Duration::ZERO);
    timer.tick(Duration::from_nanos(delta_ns));
    (timer.elapsed().as_nanos() as u64, timer.times_finished_this_tick())
}

/// A game timer, held as plain values: how long it runs, how much of that
/// has passed, and whether it starts over when done.
#[derive(Clone, Copy, Debug)]
pub struct Countdown {
    pub duration_ns: u64,
    pub elapsed_ns: u64,
    pub repeat: Repeat,
}

impl Countdown {
    /// A countdown that bevy's timer can hold: a positive duration, an
    /// elapsed time no longer than it, and a repeating one never sitting at
    /// its end.
    pub open spec fn wf(self) -> bool {
        &&& self.duration_ns > 0
        &&& self.elapsed_ns <= self.duration_ns
        &&& self.repeat == Repeat::Repeating ==> self.elapsed_ns < self.duration_ns
    }

    /// A fresh countdown of the given length, nothing elapsed yet.
    pub open spec fn fresh(duration_ns: u64, repeat: Repeat) -> Countdown {
        Countdown { duration_ns, elapsed_ns: 0, repeat }
    }

    /// The countdown after a tick of `delta_ns`, and whether it finished
    /// during that tick.
    pub open spec fn ticked(self, delta_ns: u64) -> (Countdown, bool) {
        let (elapsed, times) = tick_outcome(self.duration_ns, self.elapsed_ns, self.repeat, delta_ns);
        (Countdown { elapsed_ns: elapsed, ..self }, times > 0)
    }

    pub fn new(duration_ns: u64, repeat: Repeat) -> (c: Countdown)
        requires
            duration_ns > 0,
        ensures
            c == Countdown::fresh(duration_ns, repeat),
            c.wf(),
    {
        Countdown { duration_ns, elapsed_ns: 0, repeat }
    }

    /// Advances the countdown by `delta_ns` and says whether it finished
    /// during this tick (bevy's `just_finished`).
    pub fn tick(&mut self, delta_ns: u64) -> (just_finished: bool)
        requires
            old(self).wf(),
        ensures
            (*final(self), just_finished) == old(self).ticked(delta_ns),
            final(self).wf(),
    {
        let (elapsed, times) = bevy_timer_tick(self.duration_ns, self.elapsed_ns, self.repeat, delta_ns);
        self.elapsed_ns = elapsed;
        proof {
            let total: int = old(self).elapsed_ns + delta_ns;
            let d: int = self.duration_ns as int;
            if self.repeat == Repeat::Repeating {
                assert(0 <= total % d < d) by (nonlinear_arith)
                    requires d > 0, total >= 0;
            }
        }
        times > 0
    }
}

} // verus!
