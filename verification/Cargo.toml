[package]
name = "qkukeb_engine"
version = "0.1.0"
edition = "2021"
publish = false

[dependencies]
dashmap = "6"
prost-types = "0.12"
uuid = { version = "1", features = ["v4"] }
anyhow = "1"
async-stream = "0.3"
rzmq = "0.5"
serde = { version = "1", features = ["derive"] }
serde_json = "1"
tokio = { version = "1", features = ["full"] }
tokio-stream = "0.1"
tonic = "0.11"
tracing = "0.1"
tracing-subscriber = { version = "0.3", features = ["env-filter"] }
