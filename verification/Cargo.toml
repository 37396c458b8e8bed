[package]
name = "ledger_toolkit"
version = "0.1.0"
edition = "2021"
publish = false

[dependencies]
solana-sdk = "=2.1.21"
spl-token = "=7.0.0"
spl-associated-token-account = "=6.0.0"
serde_json = "1"
dotenv = "0.15"
ureq = "2"
base64 = "0.22"
bincode = "1"
