[package]
name = "auth_core"
version = "0.1.0"
edition = "2021"
publish = false

[dependencies]
argon2 = "*"
base64 = "*"
blake3 = "*"
chacha20poly1305 = "*"
cookie = "*"
hex = "*"
jsonwebtoken = "*"
rand = "*"
serde = { version = "*", features = ["derive"] }
totp-rs = { version = "*", features = ["gen_secret", "qr"] }
ulid = "*"
woothee = "*"
