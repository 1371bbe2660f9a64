[package]
name = "tollbooth"
version = "0.1.0"
edition = "2021"
publish = false

[dependencies]
solana-pubkey = "*"
solana-signature = "*"
spl-token = "*"
spl-associated-token-account = "*"
hmac = "*"
sha2 = "*"
hex = "*"
axum = "*"
serde = { version = "*", features = ["derive"] }
serde_json = "*"
toml = "*"
clap = { version = "*", features = ["derive"] }
anyhow = "*"
thiserror = "*"
tracing = "*"
tracing-subscriber = { version = "*", features = ["env-filter", "json"] }
tokio = { version = "*", features = ["full"] }
reqwest = { version = "*", features = ["json"] }
dashmap = "*"
base64 = "*"
bincode = "*"
uuid = { version = "*", features = ["v4"] }
solana-keypair = "*"
solana-signer = "*"
solana-message = "*"
solana-transaction = "*"
solana-commitment-config = "*"
solana-instruction = "*"
