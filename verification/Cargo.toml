[package]
name = "signal_gateway"
version = "0.1.0"
edition = "2021"
publish = false

[dependencies]
async-stream = "*"
futures = "*"
tokio = { version = "*", features = ["io-util", "macros", "net", "rt-multi-thread"] }
tonic = "*"
