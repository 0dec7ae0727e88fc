[package]
name = "openbook_v2"
version = "0.1.0"
edition = "2021"
publish = false

[dependencies]
fixed = "=1.31.0"
anchor-lang = "=0.31.2"
anchor-spl = { version = "=0.31.2", default-features = false, features = ["token"] }
borsh = "=1.8.1"
anyhow = "=1.0.104"
solana-rpc-client = { version = "2.3", default-features = false }
solana-rpc-client-api = "2.3"
solana-account-decoder-client-types = "2.3"
