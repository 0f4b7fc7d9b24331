[package]
name = "confidential_ml_pipeline"
version = "0.1.0"
edition = "2021"
publish = false

[dependencies]
confidential-ml-transport = "*"
tokio = { version = "*", features = ["io-util", "net", "time", "rt", "rt-multi-thread", "sync", "macros"] }
tokio-vsock = "*"
bytes = "*"
async-trait = "*"
serde = { version = "*", features = ["derive"] }
serde_json = "*"
tracing = "*"

[dev-dependencies]
hex = "*"
