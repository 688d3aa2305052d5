[package]
name = "webhook_runner"
version = "0.1.0"
edition = "2021"
publish = false

[dependencies]
hmac = "0.12"
serde_json = "1"
sha2 = "0.10"
