//! The phases of the game.

use vstd::prelude::*;

verus! {

/// The outer phase: exactly one is active at a time.
#[derive(Clone, Copy, PartialEq, Eq, Hash, Debug, Structural)]
pub enum AppState {
    /// The assets are being loaded.
    Loading,
    /// The start screen is shown.
    Menu,
    /// A run is being played, or has just ended.
    InGame,
}

impl Default for AppState {
    fn default() -> (state: Self)
        ensures
            state == AppState::Loading,
    {
        AppState::Loading
    }
}

/// The inner phase, which counts only while the outer phase is `InGame`.
#[derive(Clone, Copy, PartialEq, Eq, Hash, Debug, Structural)]
pub enum GameState {
    /// The bird is flying.
    Running,
    /// The bird has hit something.
    GameOver,
}

impl Default for GameState {
    fn default() -> (state: Self)
        ensures
            state == GameState::Running,
    {
        GameState::Running
    }
}

} // verus!
