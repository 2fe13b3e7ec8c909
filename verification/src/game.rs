//! Game model: calendar, speeds and per-game data.

pub mod common;
pub mod data;
pub mod date;
pub mod game_data;
