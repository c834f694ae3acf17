[package]
name = "daily_ruster_man"
version = "0.5.4"
edition = "2021"
publish = false

[dependencies]
anyhow = "1"
chrono = "0.4"
clap = { version = "4", features = ["derive", "env"] }
dirs = "*"
env_logger = "*"
log = "*"
project-root = "*"
serde = { version = "1", features = ["derive"] }
shellexpand = "*"
shellwords = "1"
toml = "*"
