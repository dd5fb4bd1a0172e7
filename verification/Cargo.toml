[package]
name = "dotlinker"
version = "0.1.0"
edition = "2021"
publish = false

[dependencies]
anyhow = "1"
chrono = "0.4"
clap = { version = "4", features = ["derive"] }
dirs = "*"
log = "0.4"
pathdiff = "0.2"
regex = "1"
saphyr = "0.0.6"

[dev-dependencies]
tempfile = "3"
env_logger = "*"
