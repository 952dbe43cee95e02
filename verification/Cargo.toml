[package]
name = "sdb"
version = "0.1.0"
edition = "2021"
publish = false

[dependencies]
nix = { version = "=0.31.3", features = ["fs", "process", "ptrace", "signal"] }
clap = { version = "=4.6.7", features = ["derive"] }
rustyline = "=18.0.1"
