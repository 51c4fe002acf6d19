[package]
name = "hoverpanel"
version = "0.1.0"
edition = "2021"
publish = false

[dependencies]
arc-swap = "1"
crossbeam = "0.8"
anyhow = "1"
serde = { version = "1", features = ["derive"] }
serde_yaml = "0.9"
bincode = "1"
