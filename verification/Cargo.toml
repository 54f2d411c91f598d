[package]
name = "ledger_zemu"
version = "0.1.0"
edition = "2021"
publish = false

[dependencies]
hex = "0.4"
ledger-apdu = "0.8"
grpc = "0.8"
grpc-protobuf = "0.8"
protobuf = "2"
reqwest = { version = "0.9", default-features = false }
serde = { version = "1", features = ["derive"] }
log = "0.4"
env_logger = "0.9"

[dev-dependencies]
serde_json = "1"
