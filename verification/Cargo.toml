[package]
name = "oidc_auth"
version = "0.1.0"
edition = "2021"
publish = false

[dependencies]
anyhow = "1"
base64 = "0.22"
form_urlencoded = "1"
getrandom = "0.2"
p256 = { version = "0.13", features = ["ecdsa"] }
rsa = "0.9"
serde = { version = "1", features = ["derive"] }
serde_json = "1"
sha2 = { version = "0.10", features = ["oid"] }
spin-sdk = "3"
