[package]
name = "r1cs_zkp"
version = "0.1.0"
edition = "2021"
publish = false

[dependencies]
curve25519-dalek = { version = "4", features = ["digest", "rand_core"] }
merlin = "3"
rand_core = { version = "0.6", features = ["getrandom"] }
sha2 = "0.10"
