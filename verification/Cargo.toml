[package]
name = "yaak_app"
version = "0.1.0"
edition = "2021"
publish = false

[dependencies]
eventsource-client = { version = "=0.14.0", default-features = false }
url = "=2.5.8"
log = "=0.4.35"
serde = { version = "=1.0.229", features = ["derive"] }
serde_json = "=1.0.154"
tokio = { version = "=1.54.1", features = ["sync", "time", "rt", "rt-multi-thread", "macros"] }
tokio-stream = "=0.1.19"
tauri = { version = "2", default-features = false }
