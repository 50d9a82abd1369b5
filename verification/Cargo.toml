[package]
name = "ws1001"
version = "0.1.0"
edition = "2021"
publish = false

[dependencies]
tokio = { version = "1", features = ["net", "time", "rt", "macros", "io-util"] }
tokio-util = { version = "0.7", features = ["codec"] }
futures = "0.3"
async-stream = "0.3"
bytes = "1"
log = "0.4"
