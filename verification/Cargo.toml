[package]
name = "lighthouse"
version = "0.1.0"
edition = "2021"
publish = false

[dependencies]
clap = "2"
env_logger = "0.10"
serde = { version = "1", features = ["derive"] }
serde_json = "1"
