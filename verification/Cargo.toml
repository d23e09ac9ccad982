[package]
name = "sol_rs"
version = "0.1.0"
edition = "2021"
publish = false

[dependencies]
solana-sdk = "1.18"
spl-token = "4.0"
spl-associated-token-account = "2.3"
eyre = "0.6"
rand = "0.8"
