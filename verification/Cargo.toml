[package]
name = "signed_webhooks"
version = "0.1.0"
edition = "2021"
publish = false

[dependencies]
anyhow = "=1.0.104"
hex = "=0.4.3"
hmac = "=0.12.1"
serde = { version = "=1.0.229", features = ["derive"] }
serde_json = "=1.0.154"
sha2 = "=0.10.9"
spin-sdk = "=3.1.1"
uuid = { version = "=1.29.0", features = ["v4"] }
