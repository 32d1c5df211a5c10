[package]
name = "dx_auth"
version = "0.5.0"
edition = "2021"
publish = false

[dependencies]
async-trait = "=0.1.92"
axum = "=0.8.9"
base64 = "=0.22.1"
chrono = "=0.4.45"
reqwest = { version = "=0.12.28", default-features = false, features = ["json", "rustls-tls"] }
serde = { version = "=1.0.229", features = ["derive"] }
serde_json = "=1.0.154"
subtle = "=2.6.1"
tokio = { version = "=1.54.1", features = ["sync"] }
tower-sessions = "=0.14.0"
tracing = "=0.1.44"
url = "=2.5.8"
