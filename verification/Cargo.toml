[package]
name = "saltyrtc_client"
version = "0.1.0"
edition = "2021"
publish = false

[dependencies]
futures = "=0.1.31"
log = "=0.4.35"
native-tls = "=0.2.18"
rmp-serde = "*"
rmpv = { version = "=1.3.1", features = ["with-serde"] }
rust_sodium = "=0.10.2"
serde = { version = "1", features = ["derive"] }
tokio-core = "=0.1.18"
websocket = "=0.27.1"
