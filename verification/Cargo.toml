[package]
name = "opaque-ke"
version = "0.1.0"
edition = "2021"
publish = false

[dependencies]
curve25519-dalek = "=4.1.3"
hkdf = "=0.12.4"
hmac = "=0.12.1"
rand = "=0.8.8"
serde = { version = "=1.0.229", features = ["derive"] }
sha2 = "=0.10.9"
subtle = "=2.6.1"
voprf = { version = "=0.5.0", features = ["danger"] }
zeroize = "=1.9.1"
