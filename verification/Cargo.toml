[package]
name = "opqueue"
version = "0.1.0"
edition = "2021"
publish = false

[dependencies]
ncurses = "=5.88.0"
nix = { version = "=0.31.3", features = ["signal"] }
scopeguard = "=1.2.0"
