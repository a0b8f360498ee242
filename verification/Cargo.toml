[package]
name = "darknode"
version = "0.1.0"
edition = "2021"
publish = false

[dependencies]
async-channel = "1"
async-executor = "1"
async-std = { version = "1", default-features = false, features = ["std"] }
async-trait = "0.1"
ed25519-dalek = "1.0.1"
futures = "0.3"
log = "0.4"
rand = "0.7"
serde = { version = "1", features = ["derive"] }
serde_json = "1"
smol = "1"
solana-sdk = "~1.8"
tokio-tungstenite = "0.16"
url = "2"
