[package]
name = "twofa"
version = "0.1.0"
edition = "2021"
publish = false

[dependencies]
argon2 = "0.5"
ecdsa = "0.16"
envfile = "*"
hmac = "0.12"
lettre = { version = "0.11", default-features = false, features = ["smtp-transport", "builder"] }
p256 = "0.13"
rand = "0.8"
serde = { version = "1", features = ["derive"] }
serde_json = "1"
sha2 = "0.10"
uuid = { version = "1", features = ["v4"] }
