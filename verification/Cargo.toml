[package]
name = "signal_source"
version = "0.1.0"
edition = "2021"
publish = false

[dependencies]
nix = { version = "*", features = ["signal"] }
mio = { version = "*", features = ["os-poll", "os-ext"] }
