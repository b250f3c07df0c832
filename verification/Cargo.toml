[package]
name = "http-stream-proxy"
version = "0.1.0"
edition = "2021"
publish = false

[dependencies]
async-stream = "=0.3.6"
axum = "=0.8.9"
bytes = "=1.12.1"
config = { version = "=0.15.27", features = ["json5"] }
dashmap = "=6.2.1"
futures-util = "=0.3.34"
m3u_parser = "=0.1.3"
reqwest = { version = "=0.12.28", features = ["stream"] }
serde = { version = "=1.0.229", features = ["derive"] }
serde_json = "=1.0.154"
thiserror = "=2.0.21"
tokio = { version = "=1.54.1", features = ["full"] }
tokio-stream = { version = "=0.1.19", features = ["sync"] }
tokio-util = "=0.7.20"
tower-http = { version = "=0.6.11", features = ["cors"] }
tracing = "=0.1.44"
urlencoding = "=2.1.3"
