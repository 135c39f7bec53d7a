[package]
name = "xfr_codec"
version = "0.1.0"
edition = "2021"
publish = false

[dependencies]
noah-api = "=0.4.0"
noah-algebra = "=0.4.0"
noah-crypto = "=0.4.0"
noah-bulletproofs = "=4.0.0"
ark-bulletproofs = "=4.0.0"
serde = { version = "=1.0.229", features = ["derive"] }

[dev-dependencies]
noah-ed25519-dalek = "=4.0.0"
rand_chacha = "=0.3.1"
