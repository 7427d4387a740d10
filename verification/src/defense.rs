//! The lane's one-shot lawn mower.

use vstd::prelude::*;

verus! {

/// Whether the mower waits at the house or has been set off.
#[derive(Clone, Copy, Debug, PartialEq, Eq, Structural)]
pub enum MowerState {
    Ready,
    Active,
}

/// The mower's state after a frame: a ready mower sets off once a zombie
/// comes within its trigger distance; an active mower stays active.
pub open spec fn mower_next(state: MowerState, zombie_within_reach: bool) -> MowerState {
    if state == MowerState::Ready && zombie_within_reach {
        MowerState::Active
    } else {
        state
    }
}

/// The mower's state after a frame (see `mower_next`).
pub fn mower_step(state: MowerState, zombie_within_reach: bool) -> (r: MowerState)
    ensures
        r == mower_next(state, zombie_within_reach),
{
    if state == MowerState::Ready && zombie_within_reach {
        MowerState::Active
    } else {
        state
    }
}

/// Only an active mower moves and hits zombies.
pub fn mower_moves(state: MowerState) -> (r: bool)
    ensures
        r == (state == MowerState::Active),
{
    state == MowerState::Active
}

/// The mower is one-shot: once set off it stays active whatever comes, and
/// a ready mower stays ready until a zombie comes within reach.
pub proof fn law_mower_never_rearms(first: bool, second: bool)
    ensures
        mower_next(mower_next(MowerState::Ready, first), second) == if first || second {
            MowerState::Active
        } else {
            MowerState::Ready
        },
        mower_next(MowerState::Active, first) == MowerState::Active,
{
}

} // verus!
