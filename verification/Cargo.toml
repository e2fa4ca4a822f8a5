[package]
name = "extend_grid"
version = "0.1.0"
edition = "2021"
publish = false

[dependencies]
solana-program = "~1.9"
spl-token = { version = "3.2", features = ["no-entrypoint"] }
spl-associated-token-account = { version = "1.0", features = ["no-entrypoint"] }
metaplex-token-metadata = { version = "0.0.1", features = ["no-entrypoint"] }
borsh = "0.9"
thiserror = "1.0"
