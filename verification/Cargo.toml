[package]
name = "miner_core"
version = "0.1.0"
edition = "2021"
publish = false

[dependencies]
solana-program = "=1.18.26"
rand = "=0.8.8"
solana-sdk = "=1.18.26"
reqwest = { version = "0.11", default-features = false, features = ["json", "rustls-tls"] }
serde = { version = "1", features = ["derive"] }
serde_json = "1"
base64 = "0.21"
tokio = { version = "1", features = ["rt-multi-thread", "process", "io-util", "time"] }
bincode = "1"
