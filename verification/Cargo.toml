[package]
name = "babyswap"
version = "0.1.0"
edition = "2021"
publish = false

[dependencies]
anchor-lang = { version = "*", features = ["init-if-needed"] }
anchor-spl = "*"
spl-token = "*"
solana-program = "*"
