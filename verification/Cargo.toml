[package]
name = "vault_game"
version = "0.1.0"
edition = "2021"
publish = false

[dependencies]
anchor-lang = { version = "=0.32.2", features = ["init-if-needed"] }
anchor-spl = "=0.32.2"
solana-sha256-hasher = { version = "=3.1.0", features = ["sha2"] }
