[package]
name = "ars_protocol"
version = "0.1.0"
edition = "2021"
publish = false

[dependencies]
anchor-lang = "=1.2.1"
anchor-spl = { version = "=1.2.1", default-features = false, features = ["token", "solana-v3"] }
arbitrary = { version = "1", features = ["derive"] }
solana-instructions-sysvar = "=3.0.1"
solana-sdk-ids = "=3.1.0"
