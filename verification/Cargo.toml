[package]
name = "voice_relay"
version = "0.1.0"
edition = "2021"
publish = false

[dependencies]
dirs = "6"
eframe = { version = "0.29", default-features = false, features = ["default_fonts", "glow", "x11"] }
global-hotkey = "=0.6.4"
reqwest = { version = "=0.12.28", default-features = false, features = ["blocking", "default-tls", "json", "multipart"] }
rosc = "=0.10.1"
serde = { version = "=1.0.229", features = ["derive"] }
serde_json = "=1.0.154"
