//! Pausing the game.

use vstd::prelude::*;

verus! {

/// Whether the game is paused.
#[derive(Clone, Copy, Debug, PartialEq, Eq, Structural)]
pub struct GamePause {
    pub paused: bool,
}

impl GamePause {
    /// Not paused.
    pub fn new() -> (r: GamePause)
        ensures
            !r.paused,
    {
        GamePause { paused: false }
    }

    /// Flips the pause; returns whether the game is now paused (then the
    /// virtual clock stops and the overlay shows).
    pub fn toggle(&mut self) -> (paused: bool)
        ensures
            final(self).paused == !old(self).paused,
            paused == final(self).paused,
    {
        self.paused = !self.paused;
        self.paused
    }

    /// Leaves the pause (when the level starts or ends).
    pub fn reset(&mut self)
        ensures
            !final(self).paused,
    {
        self.paused = false;
    }
}

/// Whether game input and animation run.
pub fn game_not_paused(pause: &GamePause) -> (r: bool)
    ensures
        r == !pause.paused,
{
    !pause.paused
}

} // verus!
