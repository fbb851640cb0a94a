[package]
name = "solana-snapshot-etl"
version = "0.3.0"
edition = "2021"
publish = false

[dependencies]
bincode = "=1.3.3"
clap = { version = "=3.2.25", features = ["derive"] }
crossbeam = "=0.8.5"
csv = "=1.4.0"
env_logger = "=0.9.3"
indicatif = "=0.17.11"
json5 = "=0.4.1"
libloading = "=0.7.4"
log = "=0.4.34"
reqwest = { version = "0.11", default-features = false, features = ["blocking", "rustls-tls"] }
rusqlite = { version = "=0.28.0", features = ["bundled"] }
serde = { version = "=1.0.229", features = ["derive"] }
serde_json = "=1.0.154"
solana-program = "=1.18.26"
spl-token = "=3.5.0"
tar = "=0.4.46"
thiserror = "=1.0.69"
zstd = "=0.11.2"

[dev-dependencies]
borsh = "=0.9.3"
