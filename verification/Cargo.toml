[package]
name = "nbd"
version = "0.1.0"
edition = "2021"
publish = false

[dependencies]
clap = { version = "=4.6.7", features = ["derive"] }
env_logger = "=0.11.11"
log = "=0.4.34"
nix = { version = "=0.31.3", features = ["ioctl", "process"] }
