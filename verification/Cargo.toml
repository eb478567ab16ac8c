[package]
name = "sorcerer"
version = "0.1.0"
edition = "2021"
publish = false

[dependencies]
serde = { version = "1", features = ["derive"] }
serde_json = "=1.0.154"
tokio = { version = "=1.54.1", features = ["rt", "rt-multi-thread", "sync", "time"] }
tokio-stream = "=0.1.19"
futures = "=0.3.34"
tracing = "=0.1.44"
log = "=0.4.34"
