//! Main menu pages.

pub mod load_game;
#[allow(clippy::module_inception)]
pub mod main_menu;
pub mod new_game;
pub mod options;
