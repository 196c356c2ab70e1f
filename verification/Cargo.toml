[package]
name = "call_validator"
version = "0.1.0"
edition = "2021"
publish = false

[dependencies]
chrono = "0.4"
serde = { version = "1", features = ["derive"] }
serde_json = "1"
procfs = "*"
libpulse-binding = "2"
x11 = "2"
