//! A shooter's firing cycle: its cycle timer runs every frame; when it
//! finishes and a zombie is ahead the shooter fires, and the rest of the
//! burst follows on the burst timer.

use vstd::prelude::*;

use crate::timer::{repeating_step, RepeatingTimer};

verus! {

/// A shooter: its cycle and burst timers, its burst size and the shots of
/// the current burst still to fire.
#[derive(Clone, Copy, Debug, PartialEq, Eq, Structural)]
pub struct ShooterState {
    pub cycle: RepeatingTimer,
    pub burst: RepeatingTimer,
    pub shots_per_burst: u8,
    pub remaining_burst_shots: u8,
}

/// The shooter after a frame of `delta` nanoseconds, and whether it fires.
/// The cycle timer always runs. During a burst only the burst timer decides:
/// a shot when it finishes a lap. Otherwise the shooter fires when a zombie
/// is ahead and the cycle timer has just finished; the rest of the burst is
/// then due and the burst timer starts over.
pub open spec fn shooter_frame(s: ShooterState, delta: u64, has_target: bool) -> (ShooterState, bool) {
    let (cycle_elapsed, cycle_done) = repeating_step(s.cycle.duration, s.cycle.elapsed, delta);
    let cycle = RepeatingTimer { elapsed: cycle_elapsed, ..s.cycle };
    if s.remaining_burst_shots > 0 {
        let (burst_elapsed, burst_done) = repeating_step(s.burst.duration, s.burst.elapsed, delta);
        let burst = RepeatingTimer { elapsed: burst_elapsed, ..s.burst };
        if burst_done {
            (
                ShooterState { cycle, burst, remaining_burst_shots: (s.remaining_burst_shots - 1) as u8, ..s },
                true,
            )
        } else {
            (ShooterState { cycle, burst, ..s }, false)
        }
    } else if has_target && cycle_done {
        (
            ShooterState {
                cycle,
                burst: RepeatingTimer { elapsed: 0, ..s.burst },
                remaining_burst_shots: (s.shots_per_burst - 1) as u8,
                ..s
            },
            true,
        )
    } else {
        (ShooterState { cycle, ..s }, false)
    }
}

impl ShooterState {
    /// A shooter that fires every `interval` nanoseconds, `shots_per_burst`
    /// shots `burst_interval` apart.
    pub fn new(interval: u64, shots_per_burst: u8, burst_interval: u64) -> (r: ShooterState)
        ensures
            r == (ShooterState {
                cycle: RepeatingTimer { duration: interval, elapsed: 0 },
                burst: RepeatingTimer { duration: burst_interval, elapsed: 0 },
                shots_per_burst,
                remaining_burst_shots: 0,
            }),
    {
        ShooterState {
            cycle: RepeatingTimer::new(interval),
            burst: RepeatingTimer::new(burst_interval),
            shots_per_burst,
            remaining_burst_shots: 0,
        }
    }

    /// Whether a burst is under way.
    pub fn bursting(&self) -> (r: bool)
        ensures
            r == (self.remaining_burst_shots > 0),
    {
        self.remaining_burst_shots > 0
    }

    /// A frame of `delta` nanoseconds (see `shooter_frame`); `has_target` is
    /// whether a zombie is ahead. Returns whether to fire.
    pub fn frame(&mut self, delta: u64, has_target: bool) -> (fire: bool)
        requires
            old(self).shots_per_burst > 0,
        ensures
            (*final(self), fire) == shooter_frame(*old(self), delta, has_target),
    {
        let cycle_done = self.cycle.tick(delta);
        if self.remaining_burst_shots > 0 {
            if self.burst.tick(delta) {
                self.remaining_burst_shots = self.remaining_burst_shots - 1;
                return true;
            }
            return false;
        }
        if has_target && cycle_done {
            self.remaining_burst_shots = self.shots_per_burst - 1;
            self.burst.reset();
            return true;
        }
        false
    }
}

/// A burst fires exactly `shots_per_burst` shots: the opening shot, then one
/// per finished lap of the burst timer, and no new burst begins before the
/// last of them.
pub proof fn law_burst_fires_its_shots(s: ShooterState, delta: u64, has_target: bool)
    requires
        s.shots_per_burst > 0,
        s.remaining_burst_shots <= s.shots_per_burst,
    ensures
        ({
            let (next, fire) = shooter_frame(s, delta, has_target);
            &&& next.shots_per_burst == s.shots_per_burst
            &&& next.remaining_burst_shots <= next.shots_per_burst
            &&& s.remaining_burst_shots > 0 ==> next.remaining_burst_shots == s.remaining_burst_shots - (if fire {
                1int
            } else {
                0int
            })
            &&& s.remaining_burst_shots == 0 && fire ==> next.remaining_burst_shots == s.shots_per_burst - 1
            &&& s.remaining_burst_shots == 0 && !has_target ==> !fire
        }),
{
}


/// During a burst the shooter fires exactly when the burst timer finishes a
/// lap, and whether a zombie is ahead makes no difference to the frame.
pub proof fn law_burst_shots_ignore_targets(s: ShooterState, delta: u64, has_target: bool)
    requires
        s.remaining_burst_shots > 0,
    ensures
        shooter_frame(s, delta, true) == shooter_frame(s, delta, false),
        shooter_frame(s, delta, has_target).1 == repeating_step(s.burst.duration, s.burst.elapsed, delta).1,
{
}

} // verus!
