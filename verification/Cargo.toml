[package]
name = "multikey"
version = "0.1.0"
edition = "2021"
publish = false

[dependencies]
ed25519-compact = "2"
p256 = { version = "0.13", features = ["ecdsa", "ecdh"] }
rand_core = "0.6"

[dev-dependencies]
rand = "0.8"
