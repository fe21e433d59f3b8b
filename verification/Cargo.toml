[package]
name = "cleaner"
version = "0.1.0"
edition = "2021"
publish = false

[dependencies]
fundu = "*"
clap = { version = "*", features = ["derive"] }
env_logger = "*"
log = "*"
trash = "*"
