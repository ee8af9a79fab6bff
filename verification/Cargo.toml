[package]
name = "bridge_custody"
version = "0.1.0"
edition = "2021"
publish = false

[dependencies]
anyhow = "=1.0.104"
hex = "=0.4.3"
sha2 = "=0.10.9"
blake2 = "=0.10.6"
ff = "0.14"
group = "0.14"
pasta_curves = "0.6"
orchard = "=0.16.0"
zcash_address = "=0.14.0"
zcash_protocol = "=0.11.0"
solana-sdk = "=5.0.0"
serde = { version = "=1.0.229", features = ["derive"] }
serde_json = "=1.0.154"
serde_bytes = "=0.11.19"
toml = "=0.9.8"
base64 = "=0.22.1"
bincode = "=1.3.3"
rand = "=0.8.8"
tokio = { version = "=1.54.1", features = ["full"] }
reqwest = { version = "=0.12.28", default-features = false, features = ["json"] }
axum = "=0.7.9"
tower-http = { version = "=0.5.2", features = ["trace"] }
tracing = "=0.1.44"
tracing-subscriber = { version = "=0.3.23", features = ["env-filter"] }
clap = { version = "=4.6.7", features = ["derive"] }
