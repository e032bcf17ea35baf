[package]
name = "custodian"
version = "0.1.0"
edition = "2021"
publish = false

[dependencies]
chrono = "0.4"
clap = { version = "4", features = ["derive"] }
env_logger = "0.11"
log = "0.4"
notify = "6"
symphonia = { version = "0.5", default-features = false, features = ["mp3", "isomp4", "aac", "wav", "pcm"] }
thiserror = "1"
