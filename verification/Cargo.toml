[package]
name = "itty_core"
version = "0.1.0"
edition = "2021"
publish = false

[dependencies]
anyhow = "*"
axum = "*"
base64-url = "*"
chrono = "*"
getrandom = "0.2"
hyper = { version = "*", features = ["full"] }
hyper-util = { version = "*", features = ["full"] }
password-auth = "*"
tokio = { version = "*", features = ["full"] }
tokio-rustls = "*"
tower-service = "*"
tracing = "*"
uuid = { version = "*", features = ["v7"] }
