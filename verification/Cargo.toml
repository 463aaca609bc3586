[package]
name = "hanlon"
version = "0.1.0"
edition = "2021"
publish = false

[dependencies]
az = "=1.3.0"
eframe = { version = "0.20", default-features = false, features = ["glow"] }
egui = "=0.20.1"
egui_file = "=0.5.4"
epaint = "=0.20.0"
serde = { version = "=1.0.229", features = ["derive"] }
serde_json = "=1.0.154"
serde_with = "=2.3.3"
