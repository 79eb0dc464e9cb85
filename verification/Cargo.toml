[package]
name = "kchaos"
version = "0.1.0"
edition = "2021"
publish = false

[dependencies]
anyhow = "1"
libc = "0.2"
nix = { version = "0.26", features = ["fs", "ioctl"] }
