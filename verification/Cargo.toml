[package]
name = "v8_runner"
version = "0.1.0"
edition = "2021"
publish = false

[dependencies]
regex = "=1.13.1"
quick-xml = "=0.39.4"
serde = { version = "=1.0.229", features = ["derive"] }
serde_json = "=1.0.154"
thiserror = "=2.0.21"
tokio = { version = "=1.54.1", features = ["full"] }
tokio-util = "=0.7.20"
tracing = "=0.1.44"
axum = "=0.8.9"
rmcp = { version = "=3.8.0", features = ["server", "transport-io", "transport-streamable-http-server"] }
reqwest = { version = "=0.12.28", default-features = false, features = ["blocking"] }
chrono = "=0.4.45"
libc = "=0.2.191"

[dev-dependencies]
tempfile = "=3.27.0"
