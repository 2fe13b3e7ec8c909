//! Telemetries from the server to the GUI.

use vstd::prelude::*;

use crate::game::common::GameSpeed;

verus! {

/// Telemetries from the server; `W` is the type of the game world.
#[derive(Debug)]
pub enum Tlm<W> {
    /// Communicate that a game has started.
    GameStarted,
    /// Communicate that the running game has stopped.
    GameStopped,
    /// State of the current game.
    GameState(W),
    /// List of saved games.
    SavedGames(SavedGamesPld),
    /// The game speed has changed.
    SpeedChanged(GameSpeed),
}

/// List of available saved games.
#[derive(Clone, Debug)]
pub struct SavedGamesPld {
    /// List of names of all available saved games.
    pub saved_games: Vec<String>,
}

} // verus!
