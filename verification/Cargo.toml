[package]
name = "prefs_core"
version = "0.1.0"
edition = "2021"
publish = false

[dependencies]
toml = { version = "0.8", features = ["preserve_order"] }
bevy = { version = "0.15", default-features = false }
