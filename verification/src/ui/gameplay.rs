//! Gameplay screens.

pub mod date_display;
pub mod left_panel;
pub mod main_scene;
pub mod speed_control;
pub mod top_bar;
