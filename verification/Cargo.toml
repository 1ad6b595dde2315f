[package]
name = "gamepad2midi"
version = "0.1.0"
edition = "2021"
publish = false

[dependencies]
eyre = "*"
gilrs = "*"
log = "*"
midir = "*"
pretty_env_logger = "*"

[dev-dependencies]
wmidi = "*"
