[package]
name = "stake_pool"
version = "0.1.0"
edition = "2021"
publish = false

[dependencies]
anchor-lang = "=1.2.1"
anchor-spl = "=1.2.1"
bincode = "=1.3.3"
solana-account-info = "=3.1.1"
solana-compute-budget-interface = "=3.1.0"
solana-message = "=6.0.0"
solana-msg = "=3.1.0"
solana-program = "=5.1.0"
solana-program-entrypoint = "=3.1.1"
solana-program-error = "=3.0.1"
solana-pubkey = { version = "=4.4.0", features = ["curve25519"] }
solana-security-txt = "=1.1.3"
solana-stake-interface = { version = "=5.1.1", features = ["bincode"] }
spl-token-2022-interface = "=3.1.2"
