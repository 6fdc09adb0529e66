[package]
name = "lightyear"
version = "0.1.0"
edition = "2021"
publish = false

[dependencies]
async-channel = "2"
async-compat = "0.2"
bevy = { version = "0.13", default-features = false }
crossbeam-channel = "0.5"
futures-util = "0.3"
tokio = { version = "1", features = ["sync", "net", "rt"] }
tokio-tungstenite = "0.21"
tracing = "0.1"
tracing-log = "0.2"
