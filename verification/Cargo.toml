[package]
name = "rqbit_desktop"
version = "0.1.0"
edition = "2021"
publish = false

[dependencies]
anyhow = "*"
base64 = "=0.23.1"
librqbit = { version = "=9.0.1", features = ["http-api", "tracing-subscriber-utils"] }
librqbit-dualstack-sockets = "=0.7.0"
parking_lot = "*"
tokio = { version = "*", features = ["full"] }
tracing = "*"
tracing-subscriber = { version = "=0.3.23", features = ["env-filter"] }
