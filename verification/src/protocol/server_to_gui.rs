//! Messages from the server to the GUI.

use vstd::prelude::*;

use crate::game::date::GameDate;
use crate::protocol::common;
use crate::protocol::gui_to_server::STR_LEN;

verus! {

/// Maximum number of saved games.
pub const MAX_SAVED_GAMES: usize = 32;

/// Interval between game status messages, in milliseconds.
pub const GAME_STATUS_TIME: u64 = 10;

/// Interval between saved games messages, in milliseconds.
pub const SAVED_GAMES_TIME: u64 = 2000;

/// Labels for messages from the server to the GUI.
///
/// On the wire `GameStatus` is 1 and `SavedGames` 2.
#[derive(Clone, Copy, Debug, PartialEq, Eq, Structural)]
pub enum ServerToGuiLabel {
    /// Status of the current game.
    GameStatus,
    /// List of available saved games.
    SavedGames,
}

/// Messages from the server to the GUI.
#[derive(Clone, Copy, Debug)]
pub enum ServerToGuiMsg {
    /// Status of the current game.
    GameStatus(GameStatusPld),
    /// List of available saved games.
    SavedGames(SavedGamesPld),
}

/// Header for all messages.
#[derive(Clone, Copy, Debug)]
pub struct Header {
    /// Message label.
    pub label: ServerToGuiLabel,
}

/// Actual packet structure.
#[derive(Debug)]
pub struct Packet<T> {
    /// Packet header.
    pub header: Header,
    /// Packet payload.
    pub payload: T,
}

/// Basic server and game status, sent continuously.
#[derive(Clone, Copy, Debug)]
pub struct GameStatusPld {
    /// True if a game is running, false otherwise.
    pub ongoing: bool,
    /// Current game speed.
    pub speed: common::GameSpeed,
    /// Current game date.
    pub date: GameDate,
}

/// List of available saved games.
#[derive(Clone, Copy, Debug)]
pub struct SavedGamesPld {
    /// List of names of all available saved games.
    pub saved_games: [[u8; STR_LEN]; MAX_SAVED_GAMES],
}

} // verus!
