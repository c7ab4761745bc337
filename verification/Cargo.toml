[package]
name = "twitch_dispatch"
version = "0.1.0"
edition = "2021"
publish = false

[dependencies]
serde_json = "*"
hmac = "*"
sha2 = "*"
