[package]
name = "airnomads"
version = "0.1.0"
edition = "2021"
publish = false

[dependencies]
quiche = { version = "=0.24.9", default-features = false }
ring = "=0.17.14"
serde = { version = "=1.0.229", features = ["derive"] }
serde_json = "=1.0.154"
thiserror = "=2.0.21"
tokio = { version = "=1.54.1", features = ["macros", "net", "rt-multi-thread", "sync", "time"] }
tracing = "=0.1.44"
