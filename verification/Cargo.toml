[package]
name = "affine_zkp"
version = "0.1.0"
edition = "2021"
publish = false

[dependencies]
curve25519-dalek = "4"
merlin = "3"
rand = "0.8"
sha3 = "0.10"
serde = { version = "1", features = ["derive"] }
serde_json = "1"
