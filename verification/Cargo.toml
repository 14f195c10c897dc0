[package]
name = "renmap"
version = "0.1.0"
edition = "2021"
publish = false

[dependencies]
anyhow = "=1.0.104"
chrono = "=0.4.45"
eframe = { version = "=0.37.0", default-features = false, features = ["glow", "x11", "default_fonts"] }
egui_extras = { version = "=0.37.0", default-features = false }
pistol = "=3.2.3"
rusqlite = "=0.41.1"
