[package]
name = "tmq"
version = "0.1.0"
edition = "2021"
publish = false

[dependencies]
zmq = "0.10"
tokio = { version = "1", features = ["net"] }
futures = "0.3"
