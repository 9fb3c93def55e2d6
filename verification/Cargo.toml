[package]
name = "zeebest"
version = "0.1.0"
edition = "2021"
publish = false

[dependencies]
failure = "0.1"
futures = "0.1"
grpc = "0.6"
protobuf = "2"
serde = { version = "1", features = ["derive"] }
serde_json = "1"
tokio = "0.1"
