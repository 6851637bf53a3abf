[package]
name = "chain_monitor"
version = "0.1.0"
edition = "2021"
publish = false

[dependencies]
serde_json = "1"
anyhow = "1"
tokio = { version = "1", features = ["full"] }
tracing = "*"
prometheus = "*"
conquer-once = "*"
electrum-client = "*"
bitcoin = "*"
