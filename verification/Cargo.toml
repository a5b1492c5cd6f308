[package]
name = "clutch"
version = "0.1.0"
edition = "2021"
publish = false

[dependencies]
chrono = "0.4"
hipchat-client = "*"
serde = { version = "1", features = ["derive"] }
serde_derive = "1"
termion = "*"
toml = "*"
