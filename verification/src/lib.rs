//! War And Trade: game data, the server's decision logic, the message
//! formats exchanged with the GUI and the menu logic of the GUI.

pub mod app_manager;
pub mod errors;
pub mod game;
pub mod game_manager;
pub mod game_state;
pub mod protocol;
pub mod text;
pub mod ui;
