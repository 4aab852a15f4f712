[package]
name = "gossipsub"
version = "0.1.0"
edition = "2021"
publish = false

[dependencies]
base64 = "*"
sha2 = "*"
serde = { version = "*", features = ["derive"] }
prometheus-client = "*"
