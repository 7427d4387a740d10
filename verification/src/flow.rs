//! The game's flow: loading a level, playing it, and its two outcomes.

use vstd::prelude::*;

verus! {

/// Where the game is.
#[derive(Clone, Copy, Debug, PartialEq, Eq, Hash, Structural)]
pub enum GameState {
    Loading,
    Playing,
    Victory,
    Defeat,
}

/// What the flow reacts to.
#[derive(Clone, Copy, Debug, PartialEq, Eq, Structural)]
pub enum FlowEvent {
    /// The loading state has just been entered.
    LoadingEntered,
    /// The restart key was just pressed.
    RestartPressed,
    /// A simulation step ended: whether a zombie got past the house, whether
    /// every wave has spawned, and how many zombies are alive.
    StepEnded { zombie_past_house: bool, all_waves_spawned: bool, living_zombies: usize },
}

/// The state the flow moves to, if any. Loading moves on to playing at
/// once; the restart key reloads the level from any state but loading; at
/// the end of a step of play, the level is won once every wave has spawned
/// and no zombie is left, and lost when a zombie got past the house (the
/// victory check comes last, so it wins).
pub open spec fn flow_next(state: GameState, event: FlowEvent) -> Option<GameState> {
    match event {
        FlowEvent::LoadingEntered => if state == GameState::Loading {
            Some(GameState::Playing)
        } else {
            None
        },
        FlowEvent::RestartPressed => if state != GameState::Loading {
            Some(GameState::Loading)
        } else {
            None
        },
        FlowEvent::StepEnded { zombie_past_house, all_waves_spawned, living_zombies } => if state
            != GameState::Playing {
            None
        } else if all_waves_spawned && living_zombies == 0 {
            Some(GameState::Victory)
        } else if zombie_past_house {
            Some(GameState::Defeat)
        } else {
            None
        },
    }
}

impl GameState {
    /// The state the game starts in.
    pub fn initial() -> (r: GameState)
        ensures
            r == GameState::Loading,
    {
        GameState::Loading
    }
}

/// The flow's reaction to `event` in `state` (see `flow_next`).
pub fn next_state(state: GameState, event: FlowEvent) -> (r: Option<GameState>)
    ensures
        r == flow_next(state, event),
{
    match event {
        FlowEvent::LoadingEntered => if state == GameState::Loading {
            Some(GameState::Playing)
        } else {
            None
        },
        FlowEvent::RestartPressed => if state != GameState::Loading {
            Some(GameState::Loading)
        } else {
            None
        },
        FlowEvent::StepEnded { zombie_past_house, all_waves_spawned, living_zombies } => {
            if state != GameState::Playing {
                None
            } else if all_waves_spawned && living_zombies == 0 {
                Some(GameState::Victory)
            } else if zombie_past_house {
                Some(GameState::Defeat)
            } else {
                None
            }
        },
    }
}

/// An outcome is reached only from play, a level is never both won and lost
/// (a zombie past the house is a living zombie), and from an outcome the
/// only way on is a restart, which reloads the level.
pub proof fn law_outcomes_come_from_play(state: GameState, event: FlowEvent)
    ensures
        flow_next(state, event) == Some(GameState::Victory) || flow_next(state, event) == Some(GameState::Defeat)
            ==> state == GameState::Playing,
        (event matches FlowEvent::StepEnded { zombie_past_house, living_zombies, .. } && zombie_past_house
            && living_zombies > 0) ==> flow_next(state, event) != Some(GameState::Victory),
        (state == GameState::Victory || state == GameState::Defeat) ==> (flow_next(state, event) is None
            || (event == FlowEvent::RestartPressed && flow_next(state, event) == Some(GameState::Loading))),
{
}


/// At the end of a step of play the level is won exactly when every wave
/// has spawned and no zombie is alive; otherwise it is lost exactly when a
/// zombie got past the house, whatever the waves, and play goes on when
/// neither happened.
pub proof fn law_step_decides_outcome(zombie_past_house: bool, all_waves_spawned: bool, living_zombies: usize)
    ensures
        ({
            let step = FlowEvent::StepEnded { zombie_past_house, all_waves_spawned, living_zombies };
            let won = all_waves_spawned && living_zombies == 0;
            &&& (flow_next(GameState::Playing, step) == Some(GameState::Victory)) == won
            &&& (!won && zombie_past_house) ==> flow_next(GameState::Playing, step) == Some(GameState::Defeat)
            &&& (!won && !zombie_past_house) ==> flow_next(GameState::Playing, step) is None
        }),
{
}

} // verus!
