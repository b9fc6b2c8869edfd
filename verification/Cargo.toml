[package]
name = "payload"
version = "0.1.0"
edition = "2021"
publish = false

[dependencies]
bytes = "1"
futures-io = "0.3"
futures-util = { version = "0.3", features = ["io"] }
serde = "1"
serde_json = "1"
