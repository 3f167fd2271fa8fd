[package]
name = "vtswitch"
version = "0.1.0"
edition = "2021"
publish = false

[dependencies]
eyre = "*"
nix = { version = "*", features = ["ioctl"] }
signal-hook = "*"
