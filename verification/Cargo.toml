[package]
name = "manifest"
version = "0.1.0"
edition = "2021"
publish = false

[dependencies]
borsh = "=1.8.1"
solana-program = "=3.0.0"
spl-token = { version = "=9.0.0", features = ["no-entrypoint"] }
spl-token-2022 = { version = "=11.1.0", features = ["no-entrypoint"] }
ephemeral-rollups-sdk = "=0.17.3"
