[package]
name = "dotty"
version = "0.1.0"
edition = "2021"
publish = false

[dependencies]
anyhow = "1"
clap = { version = "4", features = ["derive"] }
colored = "2"
dirs = "5"
env_logger = "0.10"
git2 = "0.18"
hostname = "0.3"
ignore = "0.4"
job_scheduler = "1"
log = "0.4"
notify = "4"
serde = { version = "1", features = ["derive"] }
similar = "2"
symlink = "0.1"
toml = "0.8"
