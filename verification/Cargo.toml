[package]
name = "amm_router"
version = "0.1.0"
edition = "2021"
publish = false

[dependencies]
solana-program = "1.18"
spl-token = { version = "4", default-features = false, features = ["no-entrypoint"] }
