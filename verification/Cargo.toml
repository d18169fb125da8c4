[package]
name = "qonductor_verified"
version = "0.1.0"
edition = "2021"
publish = false

[dependencies]
base64 = "0.22"
md-5 = "0.10"
uuid = "1"
prost = "0.13"
bytes = "1"
tokio = { version = "1", features = ["full"] }
tokio-tungstenite = "0.24"
futures = "0.3"
async-stream = "0.3"
axum = "0.8"
serde = { version = "1", features = ["derive"] }
serde_json = "1"
reqwest = { version = "0.12", default-features = false, features = ["rustls-tls"] }
thiserror = "2"
tracing = "0.1"
zeroconf-tokio = "*"
