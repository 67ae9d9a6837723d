[package]
name = "gesture_config"
version = "0.1.0"
edition = "2021"
publish = false

[dependencies]
rust-3d = "*"
serde = { version = "*", features = ["derive"] }
serde_json = "*"
nalgebra = { version = "*", features = ["serde-serialize"] }
clap = { version = "*", features = ["derive"] }
error-stack = "*"
