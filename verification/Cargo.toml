[package]
name = "uikit"
version = "0.1.0"
edition = "2021"
publish = false

[dependencies]
epaint = "*"
serde = { version = "*", features = ["derive"] }
