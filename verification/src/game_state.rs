//! Coarse game and pause states: the menu-level lifecycle around the
//! simulation. The tick pipeline runs only while playing and unpaused.

use vstd::prelude::*;

verus! {

/// Which phase of the game is on screen.
#[derive(Clone, Copy, PartialEq, Eq, Structural, Hash, Debug, Default)]
pub enum GameState {
    /// The title sequence.
    Intro,
    /// A level is being played.
    #[default]
    Playing,
    /// The level has been cleared.
    LevelComplete,
}

/// Whether a running level is advancing.
#[derive(Clone, Copy, PartialEq, Eq, Structural, Hash, Debug, Default)]
pub enum PauseState {
    /// The simulation ticks.
    #[default]
    Running,
    /// Frozen by the player.
    Paused,
    /// Frozen because the game ended.
    GameOver,
}

} // verus!
