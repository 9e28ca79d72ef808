[package]
name = "obric_solana"
version = "0.1.0"
edition = "2021"
publish = false

[dependencies]
anchor-lang = "0.30"
anyhow = "1"
num = "0.4"
pyth-sdk = "0.8"
pyth-sdk-solana = "0.10"
spl-token = "4"
thiserror = "1"
