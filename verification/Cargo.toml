[package]
name = "republisher"
version = "0.1.0"
edition = "2021"
publish = false

[dependencies]
anyhow = "1"
argon2 = "0.5"
axum = "0.8"
axum-server = { version = "0.7", features = ["tls-rustls"] }
rand = "0.8"
serde = { version = "1", features = ["derive"] }
serde_json = "1"
subtle = "2"
tokio = { version = "1", features = ["rt-multi-thread", "macros", "signal", "sync", "net", "time"] }
tokio-stream = { version = "0.1", features = ["sync"] }
