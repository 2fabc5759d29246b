[package]
name = "synth-fm-rs"
version = "0.1.0"
edition = "2021"
publish = false

[dependencies]
cpal = "0.17"
env_logger = { version = "0.11", default-features = false }
log = "0.4"
midir = "0.10"
rand = "0.9"
rtrb = "0.3"
serde = { version = "1", features = ["derive"] }
serde_json = "1"
