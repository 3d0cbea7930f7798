[package]
name = "emoji"
version = "0.1.0"
edition = "2021"
publish = false

[dependencies]
terminal-supports-emoji = "*"
serde = { version = "*", features = ["derive"] }
