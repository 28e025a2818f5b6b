[package]
name = "xxsynth"
version = "0.1.0"
edition = "2021"
publish = false

[dependencies]
env_logger = "0.11"
once_cell = "1"
serde = { version = "1", features = ["derive"] }
serde_json = "1"
xsynth-core = "0.3"
xsynth-realtime = "0.3"
