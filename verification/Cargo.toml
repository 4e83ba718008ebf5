[package]
name = "ptyrelay"
version = "0.1.0"
edition = "2021"
publish = false

[dependencies]
anyhow = "1"
clap = { version = "=4.5.61", features = ["derive"] }
nix = { version = "=0.30.1", features = ["fs", "poll", "process", "socket", "term", "uio"] }
