[package]
name = "passm"
version = "0.1.0"
edition = "2021"
publish = false

[dependencies]
pgp = "=0.7.2"
rsa = "=0.3.0"
rand = "=0.7.3"
smallvec = "=1.16.2"
rust-crypto = "=0.2.36"
tokio = { version = "=1.53.2", features = ["full"] }
futures = "=0.3.34"
crossterm = { version = "=0.25.0", features = ["event-stream"] }
tui = "=0.19.0"
clipboard = "=0.5.0"
anyhow = "=1.0.104"
serde = { version = "=1.0.229", features = ["derive"] }
toml = "=0.8.23"
log = "=0.4.34"
simple_logger = "=5.2.0"
ipfs-api = "=0.16.0"

[dev-dependencies]
chrono = "=0.4.45"
