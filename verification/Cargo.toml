[package]
name = "open_music"
version = "0.1.0"
edition = "2021"
publish = false

[dependencies]
base64 = "0.22"
clap = { version = "4", features = ["derive"] }
dirs = "5"
env_logger = "0.11"
log = "0.4"
notify = "6"
rodio = "0.20"
serde = { version = "1", features = ["derive"] }
serde_json = "1"
symphonia = "0.5"
thiserror = "1"
toml = "0.8"
