[package]
name = "async_shared_timeout"
version = "0.1.0"
edition = "2021"
publish = false

[dependencies]
futures-core = "*"
futures-io = "*"
pin-project-lite = "*"
portable-atomic = "*"
tokio = { version = "*", features = ["time"] }
async-io = "*"
