[package]
name = "check_journal"
version = "0.1.0"
edition = "2021"
publish = false

[dependencies]
anyhow = "1"
chrono = "0.4"
lazycell = "1"
nix = { version = "*", features = ["signal", "process"] }
regex = "1"
serde = { version = "1", features = ["derive"] }
serde_yaml = "0.8"
structopt = "0.3"
ureq = "1"
