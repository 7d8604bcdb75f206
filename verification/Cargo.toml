[package]
name = "clauders"
version = "0.1.0"
edition = "2021"
publish = false

[dependencies]
anyhow = "1"
async-stream = "0.3"
async-trait = "0.1"
futures = "0.3"
schemars = "0.8"
serde = { version = "1", features = ["derive"] }
serde_json = "1"
thiserror = "1"
tokio = { version = "1", features = ["io-util", "macros", "process", "rt", "sync"] }
tokio-stream = "0.1"
tracing = "0.1"
uuid = { version = "1", features = ["v7"] }
