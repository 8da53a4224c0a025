[package]
name = "kindle-button-mapper"
version = "0.1.0"
edition = "2021"
publish = false

[dependencies]
evdev = "0.12"
nix = { version = "0.29", features = ["poll", "signal", "inotify", "ioctl", "fs"] }
log = "0.4"
env_logger = "0.11"
