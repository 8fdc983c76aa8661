[package]
name = "solana_wallet"
version = "0.1.0"
edition = "2021"
publish = false

[dependencies]
bs58 = "*"
ed25519-dalek = "1"
rand = "0.8"

[dev-dependencies]
serde_json = "*"
