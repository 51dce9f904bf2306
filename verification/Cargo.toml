[package]
name = "macropad"
version = "0.1.0"
edition = "2021"
publish = false

[dependencies]
anyhow = "*"
ron = "*"
serde = { version = "*", features = ["derive"] }
