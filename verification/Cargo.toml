[package]
name = "npipe_web"
version = "0.1.0"
edition = "2021"
publish = false

[dependencies]
regex = "=1.13.1"
serde = { version = "=1.0.229", features = ["derive"] }
serde_json = "=1.0.154"
serde_urlencoded = "=0.7.1"
ehttp = "=0.5.0"
poll-promise = "=0.3.0"
log = "=0.4.34"
once_cell = "=1.21.4"
url = "=2.5.8"
egui = "=0.27.2"
egui_extras = "=0.27.2"
eframe = { version = "=0.27.2", default-features = false, features = ["glow"] }
web-sys = { version = "=0.3.106", features = ["Location", "Window"] }
