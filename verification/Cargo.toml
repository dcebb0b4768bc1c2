[package]
name = "codex_api"
version = "0.1.0"
edition = "2021"
publish = false

[dependencies]
eventsource-stream = "0.2"
futures = "0.3"
http = "1"
serde = { version = "1", features = ["derive"] }
serde_json = "1"
tokio = { version = "1", features = ["rt", "sync", "time"] }
tracing = "0.1"
