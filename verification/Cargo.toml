[package]
name = "crusade_roguelite"
version = "0.1.0"
edition = "2021"
publish = false

[dependencies]
anyhow = "1"
bevy = { version = "0.14", default-features = false }
serde = { version = "1", features = ["derive"] }
serde_json = "1"
