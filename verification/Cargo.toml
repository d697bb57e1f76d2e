[package]
name = "websocket_source_v1"
version = "0.1.0"
edition = "2021"
publish = false

[dependencies]
anyhow = "1"
chrono = { version = "0.4", default-features = false, features = ["clock", "serde"] }
clap = { version = "4", features = ["derive"] }
const-hex = "1"
futures = "0.3"
http = "1"
http-body-util = "0.1"
hyper = { version = "1", features = ["server", "http1", "http2"] }
hyper-util = { version = "0.1", features = ["server-auto", "tokio"] }
json5 = "0.4"
lazy_static = "1"
prometheus = { version = "0.13", default-features = false }
rand = "0.8"
rdkafka = "0.36"
serde = { version = "1", features = ["derive"] }
serde_json = "1"
sha2 = "0.10"
tokio = { version = "1", features = ["rt-multi-thread", "macros", "fs", "io-util", "net", "time", "signal"] }
tokio-tungstenite = "0.24"
tracing = "0.1"
