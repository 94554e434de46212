[package]
name = "onreapp_fuzz"
version = "0.1.0"
edition = "2021"
publish = false

[dependencies]
ahash = "=0.8.11"
anchor-lang = ">=1.0.1, <1.1.0"
anyhow = "=1.0.104"
blake3 = "=1.8.2"
crucible-test-context = "=0.2.1"
js-sys = ">=0.3.60, <0.3.80"
litesvm = { version = "=0.9.1", features = ["precompiles"] }
serde_with = { version = ">=3.12.0, <3.24.0", default-features = false, features = ["macros"] }
solana-clock = "=3.0.1"
solana-instruction = "=3.1.0"
solana-keypair = "=3.1.0"
solana-program-option = "=3.1.0"
solana-pubkey = { version = "=3.0.0", features = ["curve25519"] }
solana-secp256k1-recover = ">=3.0.0, <3.2.0"
solana-signer = "=3.0.0"
spl-token-2022-interface = "=2.1.0"
