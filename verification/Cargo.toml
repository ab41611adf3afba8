[package]
name = "session_auth"
version = "0.1.0"
edition = "2021"
publish = false

[dependencies]
base64 = "0.22"
rand = "0.9"
serde = { version = "1", features = ["derive"] }
serde_json = "1"
time = { version = "0.3", features = ["serde"] }
tokio = { version = "1", features = ["time", "sync", "rt"] }
tower-layer = "0.3"
tower-service = "0.3"
pin-project = "1"
axum = { version = "0.8", default-features = false }
async-trait = "0.1"
tracing = "0.1"
thiserror = "2"
parking_lot = "0.12"
