[package]
name = "jetgraph-client"
version = "0.1.0"
edition = "2021"
publish = false

[dependencies]
tonic = "0.12"
tokio = { version = "1", features = ["sync", "rt", "macros"] }
tokio-stream = "0.1"
thiserror = "1"
