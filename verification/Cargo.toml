[package]
name = "scaled_capture"
version = "0.1.0"
edition = "2021"
publish = false

[dependencies]
anyhow = "1"
screenshots = "0.8"
image = { version = "0.24", default-features = false, features = ["png"] }
