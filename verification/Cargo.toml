[package]
name = "liqz"
version = "0.1.0"
edition = "2021"
publish = false

[dependencies]
anchor-lang = "0.24.2"
anchor-spl = "0.24.2"
solana-program = "1"
spl-associated-token-account = { version = "1", features = ["no-entrypoint"] }
spl-token = { version = "3", features = ["no-entrypoint"] }
