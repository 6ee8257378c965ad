[package]
name = "tt_backend"
version = "0.1.0"
edition = "2021"
publish = false

[dependencies]
serde_json = "*"
tokio = { version = "*", features = ["rt", "net", "sync", "io-util", "macros"] }
tokio-tungstenite = "*"
futures-util = "*"
log = "*"
env_logger = "*"
