[package]
name = "minter"
version = "0.1.0"
edition = "2021"
publish = false

[dependencies]
solana-program = "=5.1.0"
solana-system-interface = { version = "=3.3.0", features = ["bincode"] }
mpl-token-metadata = "=5.1.1"
spl-token = "=9.0.0"
spl-associated-token-account = "=8.0.0"
