[package]
name = "stream_mux"
version = "0.1.0"
edition = "2021"
publish = false

[dependencies]
tokio = { version = "*", features = ["rt", "rt-multi-thread", "sync", "time", "macros"] }
async-channel = "*"
crossbeam-channel = "*"
futures-util = "*"
tokio-stream = "*"
rand = "*"
