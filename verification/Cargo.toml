[package]
name = "wasmbus_core"
version = "0.1.0"
edition = "2021"
publish = false

[dependencies]
serde_json = "*"
async-nats = "*"
tokio = { version = "*", features = ["full"] }
futures = "*"
bytes = "*"
anyhow = "*"
nkeys = "*"
