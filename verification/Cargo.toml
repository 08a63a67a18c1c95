[package]
name = "mollusk_fixture"
version = "0.1.0"
edition = "2021"
publish = false

[dependencies]
agave-feature-set = { version = "=3.1.14", features = ["agave-unstable-api"] }
solana-account = "3"
solana-compute-budget = { version = "=3.1.14", features = ["agave-unstable-api"] }
solana-instruction = "3"
solana-keccak-hasher = { version = "=3.1.0", features = ["sha3"] }
solana-pubkey = "3"
solana-transaction-context = { version = "=3.1.14", features = ["agave-unstable-api"] }
