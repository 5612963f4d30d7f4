[package]
name = "futures_compat"
version = "0.1.0"
edition = "2021"
publish = false

[dependencies]
futures = "0.1"
futures-core = "0.2"
futures-sink = "0.2"
futures-io = "0.2"
tokio-io = "0.1"
