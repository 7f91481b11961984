[package]
name = "flowlink"
version = "0.1.0"
edition = "2021"
publish = false

[dependencies]
bytes = "1"
sha2 = "0.10"
ed25519-dalek = { version = "2", features = ["rand_core"] }
rand = "0.8"
uuid = { version = "1", features = ["v4"] }
serde = { version = "1", features = ["derive"] }
serde_json = "1"
mdns-sd = "*"
if-addrs = "*"
socket2 = "0.5"
tokio = { version = "1", features = ["sync"] }
tracing = "0.1"
tracing-subscriber = { version = "0.3", features = ["env-filter"] }
tracing-appender = "0.2"
