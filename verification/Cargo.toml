[package]
name = "transfer-lamports"
version = "0.1.0"
edition = "2021"
publish = false

[dependencies]
anyhow = "1"
borsh = { version = "1", features = ["derive"] }
clap = { version = "4", features = ["derive"] }
solana-program = "=2.3.0"
solana-sdk = "=2.3.1"
