[package]
name = "my_first_solana_program"
version = "0.1.0"
edition = "2021"
publish = false

[dependencies]
anchor-lang = "=1.2.2"
anchor-spl = { version = "=1.2.2", default-features = false, features = ["token", "solana-v3"] }
solana-sha256-hasher = { version = "=3.1.0", features = ["sha2"] }
