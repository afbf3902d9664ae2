[package]
name = "caching_proxy"
version = "0.1.0"
edition = "2021"
publish = false

[dependencies]
axum = "0.6"
lazy_static = "1"
miette = "5"
reqwest = "0.11"
tokio = { version = "1", features = ["full"] }
tracing = "0.1"
tracing-subscriber = "0.3"
