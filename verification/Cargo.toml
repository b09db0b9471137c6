[package]
name = "rustdar-egui"
version = "0.1.0"
edition = "2021"
publish = false

[dependencies]
chrono = "*"
egui = "0.35"
log = "*"
serde = { version = "*", features = ["derive"] }
serde_json = "*"
walkers = "*"
web-time = "*"
