[package]
name = "ecc_blind"
version = "0.1.0"
edition = "2021"
publish = false

[dependencies]
curve25519-dalek = "*"
rand = "*"
sha3 = "*"
subtle = "*"
