[package]
name = "step_dca"
version = "0.1.0"
edition = "2021"
publish = false

[dependencies]
solana-program = "1"
spl-token = { version = "4", default-features = false, features = ["no-entrypoint"] }
spl-token-swap = { version = "3", default-features = false, features = ["no-entrypoint"] }

[dev-dependencies]
borsh = "1"
