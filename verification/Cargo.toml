[package]
name = "probability_cloud"
version = "0.1.0"
edition = "2021"
publish = false

[dependencies]
anchor-lang = "=1.2.1"
sha2 = "=0.10.9"
solana-curve25519 = "=4.0.1"

[dev-dependencies]
curve25519-dalek = "=4.1.3"
