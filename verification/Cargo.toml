[package]
name = "mcp_compressor_core"
version = "0.1.0"
edition = "2021"
publish = false

[dependencies]
axum = "=0.8.9"
futures = "=0.3.34"
http = "=1.5.0"
libc = "=0.2.191"
process-wrap = { version = "9", features = ["tokio1"] }
reqwest = { version = "=0.13.5", default-features = false, features = ["stream", "json"] }
rmcp = { version = "1.8.0", default-features = false, features = ["client", "auth", "transport-child-process", "transport-streamable-http-client-reqwest"] }
serde = { version = "1", features = ["derive"] }
serde_json = "=1.0.154"
sse-stream = "0.2"
thiserror = "2"
tokio = { version = "=1.54.1", features = ["full"] }
tokio-util = "=0.7.20"

[dev-dependencies]
tempfile = "=3.27.0"
