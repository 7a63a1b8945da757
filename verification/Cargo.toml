[package]
name = "secret_guessing"
version = "0.1.0"
edition = "2021"
publish = false

[dependencies]
rand = "0.8"
serde_json = "1"
x25519-dalek = { version = "2", features = ["static_secrets"] }
