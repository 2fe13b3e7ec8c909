[package]
name = "war_and_trade"
version = "0.1.0"
edition = "2021"
publish = false

[dependencies]
serde = { version = "1", features = ["derive"] }
serde_json = "1"
serde-big-array = "0.5"
crossbeam-channel = "0.5"
glob = "0.3"
eframe = { version = "=0.31.1", default-features = false, features = ["default_fonts", "glow", "x11"] }
egui = "=0.31.1"
egui_extras = "=0.31.1"
