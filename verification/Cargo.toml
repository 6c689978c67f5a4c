[package]
name = "gameplay"
version = "0.1.0"
edition = "2021"
publish = false

[dependencies]
gdnative = "*"
serde = { version = "*", features = ["derive"] }
