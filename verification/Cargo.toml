[package]
name = "ws_accept"
version = "0.1.0"
edition = "2021"
publish = false

[dependencies]
native-tls = "0.2"
tokio-core = "0.1"
