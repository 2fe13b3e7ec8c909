//! Overall state of a game as shared with the GUI.

use vstd::prelude::*;

use crate::game::common::GameSpeed;
use crate::game::data::GameData;
use crate::game::date::GameDate;

verus! {

/// Overall state of the game.
#[derive(Clone, Debug)]
pub struct GameState {
    /// True if a game is running, false otherwise.
    pub ongoing: bool,
    /// Current game speed.
    pub speed: GameSpeed,
    /// Data for the current game.
    pub game_data: GameData,
    /// List of saved games.
    pub saved_games: Vec<String>,
}

impl GameState {
    /// Create a new shared state object: no game, paused, no saved games.
    pub fn new() -> (res: Self)
        ensures
            !res.ongoing,
            res.speed == GameSpeed::Paused,
            res.game_data@.civ_name == "NO NAME"@,
            res.game_data@.date == GameDate::first_day(),
            res.saved_games@.len() == 0,
    {
        GameState {
            ongoing: false,
            speed: GameSpeed::Paused,
            game_data: GameData::new(),
            saved_games: Vec::new(),
        }
    }
}

} // verus!
