//! Messages exchanged between the GUI and the game server.

pub mod cmd;
pub mod common;
pub mod gui_to_server;
pub mod interface;
pub mod net_interface;
pub mod server_to_gui;
pub mod tlm;
