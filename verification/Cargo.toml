[package]
name = "signature_relay"
version = "0.1.0"
edition = "2021"
publish = false

[dependencies]
near-sdk = "=5.15.1"
omni-transaction = "=0.3.0"
serde = { version = "=1.0.229", features = ["derive"] }
serde_json = "=1.0.154"
