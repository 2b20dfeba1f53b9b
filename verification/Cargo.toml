[package]
name = "gradatum_api"
version = "0.1.0"
edition = "2021"
publish = false

[dependencies]
axum = "=0.8.9"
chrono = { version = "=0.4.45", features = ["serde"] }
http = "=1.5.0"
rmcp = { version = "=3.8.0", features = ["server", "transport-streamable-http-server"] }
schemars = "=1.2.3"
serde = { version = "=1.0.229", features = ["derive"] }
serde_json = "=1.0.154"
sha2 = "=0.11.1"
tokio = { version = "=1.54.1", features = ["rt", "rt-multi-thread", "macros", "sync", "time"] }
tokio-stream = { version = "=0.1.19", features = ["sync"] }
tokio-util = "=0.7.20"
tracing = "=0.1.44"
ulid = "=3.0.0"

[dev-dependencies]
rusqlite = { version = "=0.41.1", features = ["bundled"] }
