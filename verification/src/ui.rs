//! Decision logic of the GUI: menu navigation and what the screens show.

pub mod gameplay;
pub mod main_menu;
