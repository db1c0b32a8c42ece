[package]
name = "wallet_fleet"
version = "0.1.0"
edition = "2021"
publish = false

[dependencies]
solana-sdk = "=5.0.0"
solana-system-interface = { version = "=3.3.0", features = ["bincode"] }
bincode = "=1.3.3"
bs58 = "=0.5.1"
base64 = "=0.22.1"
serde = { version = "=1.0.229", features = ["derive"] }
serde_json = "=1.0.151"
tokio = { version = "=1.53.2", features = ["rt-multi-thread", "macros", "sync", "net", "time"] }
reqwest = { version = "=0.13.5", default-features = false, features = ["json"] }
futures-util = "=0.3.34"
tokio-tungstenite = "=0.30.0"
tungstenite = "=0.30.0"
axum = "=0.8.9"
tower-http = { version = "=0.6.11", features = ["cors"] }
