[package]
name = "watchdog"
version = "0.1.0"
edition = "2021"
publish = false

[dependencies]
nix = { version = "*", features = ["signal", "process", "time"] }
serde = { version = "*", features = ["derive"] }
serde_json = "*"
