//! Zombie decisions: the level of detail under large hordes, the draw-order
//! slot of each new zombie, walking or eating, biting, and the chill.

use vstd::prelude::*;

use crate::timer::{once_step, repeating_step, OnceTimer, RepeatingTimer};

verus! {

/// Zombies at or above which models are simplified.
pub const HORDE_SIMPLIFICATION_THRESHOLD: usize = 4_000;

/// Zombies at or below which full models come back.
pub const HORDE_FULL_DETAIL_RESTORE_THRESHOLD: usize = 3_200;

/// Number of distinct draw-order slots.
pub const ZOMBIE_RENDER_Z_SLOTS: u32 = 100_000;

/// How detailed the zombie models are drawn.
#[derive(Clone, Copy, Debug, PartialEq, Eq, Hash, Structural)]
pub enum ZombieModelDetail {
    Full,
    Simplified,
}

/// The detail after a frame with `count` zombies: full models are simplified
/// from `simplify_at` zombies on, simplified ones restored at `restore_at`
/// zombies or fewer; in between the detail stays.
pub open spec fn detail_after(count: usize, current: ZombieModelDetail, simplify_at: usize, restore_at: usize) -> ZombieModelDetail {
    match current {
        ZombieModelDetail::Full => if count >= simplify_at {
            ZombieModelDetail::Simplified
        } else {
            current
        },
        ZombieModelDetail::Simplified => if count <= restore_at {
            ZombieModelDetail::Full
        } else {
            current
        },
    }
}

/// The detail to draw with, given the number of zombies and the current detail.
pub fn render_detail_with_hysteresis(
    count: usize,
    current: ZombieModelDetail,
    simplify_at: usize,
    restore_at: usize,
) -> (r: ZombieModelDetail)
    ensures
        r == detail_after(count, current, simplify_at, restore_at),
{
    match current {
        ZombieModelDetail::Full => if count >= simplify_at {
            ZombieModelDetail::Simplified
        } else {
            current
        },
        ZombieModelDetail::Simplified => if count <= restore_at {
            ZombieModelDetail::Full
        } else {
            current
        },
    }
}

/// With the restore threshold below the simplify threshold, a horde size
/// strictly between them never changes the detail, so the detail does not
/// flicker when the horde hovers around one threshold.
pub proof fn law_detail_has_hysteresis(count: usize, current: ZombieModelDetail, simplify_at: usize, restore_at: usize)
    requires
        restore_at < count < simplify_at,
    ensures
        detail_after(count, current, simplify_at, restore_at) == current,
{
}

/// The counter of zombies spawned, which hands out draw-order slots.
#[derive(Clone, Copy, Debug, PartialEq, Eq, Structural)]
pub struct ZombieRenderSequence {
    pub next: u32,
}

impl ZombieRenderSequence {
    /// Hands out the next draw-order slot (the counter modulo the number of
    /// slots) and advances the counter, wrapping around.
    pub fn next_slot(&mut self) -> (slot: u32)
        ensures
            slot == old(self).next % ZOMBIE_RENDER_Z_SLOTS,
            slot < ZOMBIE_RENDER_Z_SLOTS,
            final(self).next == if old(self).next == u32::MAX {
                0
            } else {
                (old(self).next + 1) as u32
            },
    {
        let slot = self.next % ZOMBIE_RENDER_Z_SLOTS;
        self.next = if self.next == u32::MAX {
            0
        } else {
            self.next + 1
        };
        slot
    }
}

/// What a zombie is doing.
#[derive(Clone, Copy, Debug, PartialEq, Eq, Structural)]
pub enum ZombieState {
    /// Walking left along the lane, looking for plants.
    Walking,
    /// Standing in front of `target` and biting it.
    Eating { target: u64 },
}

/// How long an ice pea's chill lasts, in nanoseconds.
pub const CHILL_DURATION: u64 = 10_000_000_000;

/// The slow-down an ice pea puts on a zombie: a one-shot timer of
/// `CHILL_DURATION`; the zombie is freed when it finishes.
#[derive(Clone, Copy, Debug, PartialEq, Eq, Structural)]
pub struct Chilled {
    pub timer: OnceTimer,
}

impl Chilled {
    /// A fresh chill.
    pub fn new() -> (r: Chilled)
        ensures
            r.timer == (OnceTimer { duration: CHILL_DURATION, elapsed: 0 }),
    {
        Chilled { timer: OnceTimer::new(CHILL_DURATION) }
    }

    /// Lets `delta` nanoseconds pass; returns whether the chill has worn off.
    pub fn tick(&mut self, delta: u64) -> (expired: bool)
        ensures
            final(self).timer.duration == old(self).timer.duration,
            (final(self).timer.elapsed, expired) == once_step(old(self).timer.duration, old(self).timer.elapsed, delta),
    {
        self.timer.tick(delta)
    }
}

/// A zombie's bite in a frame, with its bite timer: a walking zombie's timer
/// starts over; an eating zombie whose target is no plant any more has its
/// timer start over too and waits for its next state; otherwise the timer
/// runs `delta` nanoseconds (the caller halves a chilled zombie's frame) and
/// the zombie bites its target when a lap finishes. Returns the bitten target.
pub open spec fn bite_after(state: ZombieState, target_is_plant: bool, timer: RepeatingTimer, delta: u64) -> (
    RepeatingTimer,
    Option<u64>,
) {
    match state {
        ZombieState::Walking => (RepeatingTimer { elapsed: 0, ..timer }, None),
        ZombieState::Eating { target } => if !target_is_plant {
            (RepeatingTimer { elapsed: 0, ..timer }, None)
        } else {
            let (elapsed, done) = repeating_step(timer.duration, timer.elapsed, delta);
            (RepeatingTimer { elapsed, ..timer }, if done {
                Some(target)
            } else {
                None
            })
        },
    }
}

/// A frame of a zombie's bite timer (see `bite_after`); returns the target
/// bitten in this frame, if any.
pub fn attack_frame(state: ZombieState, target_is_plant: bool, timer: &mut RepeatingTimer, delta: u64) -> (bitten: Option<u64>)
    ensures
        (*final(timer), bitten) == bite_after(state, target_is_plant, *old(timer), delta),
{
    match state {
        ZombieState::Walking => {
            timer.reset();
            None
        },
        ZombieState::Eating { target } => {
            if !target_is_plant {
                timer.reset();
                return None;
            }
            if timer.tick(delta) {
                Some(target)
            } else {
                None
            }
        },
    }
}

/// A zombie bites only the plant it is eating, and only while that target
/// is still a plant; the bite timer of a walking zombie, and of one whose
/// target is gone, starts over.
pub proof fn law_bites_only_its_plant(state: ZombieState, target_is_plant: bool, timer: RepeatingTimer, delta: u64, bitten: u64)
    ensures
        bite_after(state, target_is_plant, timer, delta).1 == Some(bitten) ==> state == (ZombieState::Eating {
            target: bitten,
        }) && target_is_plant,
        state == ZombieState::Walking ==> bite_after(state, target_is_plant, timer, delta).0.elapsed == 0,
        !target_is_plant ==> bite_after(state, target_is_plant, timer, delta).0.elapsed == 0,
{
}

/// The state after the lane ahead was looked at: eating the nearest plant in
/// reach, if any, otherwise walking.
pub fn state_for_blocker(blocker: Option<u64>) -> (r: ZombieState)
    ensures
        r == match blocker {
            Some(target) => ZombieState::Eating { target },
            None => ZombieState::Walking,
        },
{
    match blocker {
        Some(target) => ZombieState::Eating { target },
        None => ZombieState::Walking,
    }
}

} // verus!
