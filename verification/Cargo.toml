[package]
name = "upstream_core"
version = "0.1.0"
edition = "2021"
publish = false

[dependencies]
tokio = { version = "1", features = ["sync", "net", "time", "rt", "macros"] }
tokio-util = "0.7"
getrandom = "0.3"
quinn = "0.11.7"
h3 = "0.0.8"
h3-quinn = "0.0.10"
hyper = { version = "1", features = ["client", "http1", "http2"] }
