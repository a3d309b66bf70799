[package]
name = "validated_request"
version = "0.1.0"
edition = "2021"
publish = false

[dev-dependencies]
serde = "*"
serde_json = "*"
serde_qs = "*"
serde_urlencoded = "*"
validator = "*"
