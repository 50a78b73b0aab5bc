[package]
name = "raingun"
version = "0.1.0"
edition = "2021"
publish = false

[dependencies]
cgmath = { version = "=0.18.0", features = ["serde"] }
clap = "=4.6.7"
image = { version = "=0.25.10", default-features = false, features = ["png"] }
parking_lot = "=0.12.5"
rayon = "=1.12.0"
serde = { version = "=1.0.229", features = ["derive"] }
serde_yaml = "=0.9.34"
