[package]
name = "delugian"
version = "0.1.0"
edition = "2021"
publish = false

[dependencies]
midir = "*"
serde = { version = "1", features = ["derive"] }
