[package]
name = "runes"
version = "0.1.0"
edition = "2021"
publish = false

[dependencies]
eframe = { version = "0.22", default-features = false, features = ["glow", "default_fonts"] }
egui_dock = "0.6"
env_logger = "0.10"
