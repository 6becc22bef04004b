[package]
name = "hvc_bus"
version = "0.1.0"
edition = "2021"
publish = false

[dependencies]
anyhow = "1"
exitcode = "1"
nix = { version = "0.29", features = ["fs", "poll"] }
