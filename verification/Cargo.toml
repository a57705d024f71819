[package]
name = "gba_core"
version = "0.1.0"
edition = "2021"
publish = false

[dependencies]
eframe = { version = "=0.29.1", default-features = false, features = ["default_fonts", "glow", "x11"] }
egui = "=0.29.1"
parking_lot = "0.12"
serde_json = "1"
