//! Game timers, held as plain nanosecond counts and stepped by bevy's `Timer`.

use vstd::prelude::*;

verus! {

/// A repeating timer of `duration` nanoseconds that has run `elapsed`, after
/// `delta` more: the new elapsed time and whether it finished during the
/// step. The elapsed time wraps around the duration; a zero duration finishes
/// on every step. (The number of laps is counted in a `u32`, so a step of
/// exactly a multiple of 2^32 laps does not count as finished.)
pub open spec fn repeating_step(duration: u64, elapsed: u64, delta: u64) -> (u64, bool) {
    if duration == 0 {
        (0, true)
    } else {
        (((elapsed + delta) % (duration as int)) as u64, ((elapsed + delta) / (duration as int)) as u32 != 0)
    }
}

/// A one-shot timer of `duration` nanoseconds that has run `elapsed`, after
/// `delta` more: it stops at its duration, and is finished once there.
pub open spec fn once_step(duration: u64, elapsed: u64, delta: u64) -> (u64, bool) {
    if elapsed + delta >= duration {
        (duration, true)
    } else {
        ((elapsed + delta) as u64, false)
    }
}

/// bevy's `Timer::tick`, on a timer of `duration` nanoseconds (repeating or
/// one-shot) whose elapsed time is `elapsed` and that has not finished:
/// returns the timer's elapsed time afterwards, its `just_finished` and its
/// `is_finished`. Per bevy_time's source, the elapsed time grows by `delta`.
/// A repeating timer that reaches its duration keeps the remainder modulo the
/// duration (zero for a zero duration) and counts the quotient as a `u32`
/// (`u32::MAX` for a zero duration) as the laps of this tick;
/// `just_finished` is whether that count is positive. A one-shot timer that
/// reaches its duration is finished and its elapsed time is set to the
/// duration. What `is_finished` is for a repeating timer, and
/// `just_finished` for a one-shot one, is left unsaid.
#[verifier::external_body]
fn bevy_timer_tick(duration: u64, elapsed: u64, delta: u64, repeating: bool) -> (r: (u64, bool, bool))
    ensures
        repeating ==> (r.0, r.1) == repeating_step(duration, elapsed, delta),
        !repeating ==> (r.0, r.2) == once_step(duration, elapsed, delta),
{
    let mode = if repeating { bevy::time::TimerMode::Repeating } else { bevy::time::TimerMode::Once };
    let mut timer = bevy::time::Timer::new(core::time::Duration::from_nanos(duration), mode);
    timer.set_elapsed(core::time::Duration::from_nanos(elapsed));
    timer.tick(core::time::Duration::from_nanos(delta));
    (timer.elapsed().as_nanos() as u64, timer.just_finished(), timer.is_finished())
}

/// A repeating timer's elapsed time always stays within one lap; a step that
/// ends before the lap's end only adds the step and does not finish it; a
/// step that reaches the lap's end (by fewer than 2^32 laps) finishes it. A
/// one-shot timer never runs past its duration, and is finished exactly once
/// its elapsed time reaches it.
pub proof fn law_timer_steps(duration: u64, elapsed: u64, delta: u64)
    ensures
        duration > 0 ==> repeating_step(duration, elapsed, delta).0 < duration,
        elapsed + delta < duration ==> repeating_step(duration, elapsed, delta) == ((elapsed + delta) as u64, false),
        0 < duration <= elapsed + delta < duration * 0x1_0000_0000 ==> repeating_step(duration, elapsed, delta).1,
        once_step(duration, elapsed, delta).0 <= duration,
        once_step(duration, elapsed, delta).1 == (elapsed + delta >= duration),
{
    let total: int = elapsed + delta;
    let d: int = duration as int;
    if d > 0 {
        assert(0 <= total % d < d) by (nonlinear_arith)
            requires
                d > 0,
                total >= 0,
        ;
        if total < d {
            assert(total % d == total && total / d == 0) by (nonlinear_arith)
                requires
                    d > 0,
                    0 <= total < d,
            ;
        }
        if d <= total < d * 0x1_0000_0000 {
            assert(1 <= total / d < 0x1_0000_0000) by (nonlinear_arith)
                requires
                    d > 0,
                    d <= total < d * 0x1_0000_0000,
            ;
            let q: int = total / d;
            assert((q as u32) as int == q);
        }
    }
}

/// A repeating timer (shooting, sun production, bites): its duration and the
/// time it has run in the current lap, in nanoseconds.
#[derive(Clone, Copy, Debug, PartialEq, Eq, Structural)]
pub struct RepeatingTimer {
    pub duration: u64,
    pub elapsed: u64,
}

impl RepeatingTimer {
    /// A timer of `duration` nanoseconds that has not run yet.
    pub fn new(duration: u64) -> (r: RepeatingTimer)
        ensures
            r == (RepeatingTimer { duration, elapsed: 0 }),
    {
        RepeatingTimer { duration, elapsed: 0 }
    }

    /// Lets `delta` nanoseconds pass; returns whether a lap finished.
    pub fn tick(&mut self, delta: u64) -> (just_finished: bool)
        ensures
            final(self).duration == old(self).duration,
            (final(self).elapsed, just_finished) == repeating_step(old(self).duration, old(self).elapsed, delta),
    {
        let (elapsed, just_finished, _) = bevy_timer_tick(self.duration, self.elapsed, delta, true);
        self.elapsed = elapsed;
        just_finished
    }

    /// Starts the lap over.
    pub fn reset(&mut self)
        ensures
            *final(self) == (RepeatingTimer { elapsed: 0, ..*old(self) }),
    {
        self.elapsed = 0;
    }
}

/// A one-shot timer: its duration and the time it has run, in nanoseconds.
#[derive(Clone, Copy, Debug, PartialEq, Eq, Structural)]
pub struct OnceTimer {
    pub duration: u64,
    pub elapsed: u64,
}

impl OnceTimer {
    /// A timer of `duration` nanoseconds that has not run yet.
    pub fn new(duration: u64) -> (r: OnceTimer)
        ensures
            r == (OnceTimer { duration, elapsed: 0 }),
    {
        OnceTimer { duration, elapsed: 0 }
    }

    /// Lets `delta` nanoseconds pass; returns whether the timer has finished.
    pub fn tick(&mut self, delta: u64) -> (finished: bool)
        ensures
            final(self).duration == old(self).duration,
            (final(self).elapsed, finished) == once_step(old(self).duration, old(self).elapsed, delta),
    {
        let (elapsed, _, finished) = bevy_timer_tick(self.duration, self.elapsed, delta, false);
        self.elapsed = elapsed;
        finished
    }
}

} // verus!
