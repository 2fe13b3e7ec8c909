//! Commands from the GUI.

use vstd::prelude::*;

use crate::game::common::GameSpeed;

verus! {

/// Commands from the GUI.
#[derive(Debug)]
pub enum Cmd {
    /// Start a new game.
    NewGame(NewGamePld),
    /// Save the current game.
    SaveGame(SaveGamePld),
    /// Request the list of saved games.
    ReqSavedGamesList,
    /// Load an existing game.
    LoadGame(LoadGamePld),
    /// Delete an existing saved game.
    DeleteSavedGame(DeleteSavedGamePld),
    /// Set the game speed.
    SetSpeed(SetSpeedPld),
    /// Stop the running game.
    StopGame,
    /// Stop the server.
    CloseServer,
}

/// Command for starting a new game.
#[derive(Debug)]
pub struct NewGamePld {
    /// Name of the player's civilisation.
    pub civ_name: String,
}

/// Command for saving the current game.
#[derive(Debug)]
pub struct SaveGamePld {
    /// Name of the save file (with no extension).
    /// If a save with the same name already exists, it will get overwritten.
    pub name: String,
}

/// Command for loading a saved game.
#[derive(Debug)]
pub struct LoadGamePld {
    /// Name of the game to load.
    /// If a game is currently running, it will be terminated without saving.
    pub name: String,
}

/// Command for deleting a saved game.
#[derive(Debug)]
pub struct DeleteSavedGamePld {
    /// Name of the game to delete.
    pub name: String,
}

/// Command for changing the game speed.
#[derive(Debug)]
pub struct SetSpeedPld {
    /// New speed to set.
    pub speed: GameSpeed,
}

} // verus!
