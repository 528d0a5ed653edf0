[package]
name = "webserver"
version = "0.1.0"
edition = "2021"
publish = false

[dependencies]
axum = "0.8"
axum-extra = { version = "0.10", features = ["async-read-body"] }
base64ct = { version = "1.6", features = ["alloc"] }
clap = { version = "4", features = ["derive"] }
error-trace = "*"
hyper = { version = "1", features = ["server", "http1", "http2"] }
hyper-util = { version = "0.1", features = ["server-auto", "tokio"] }
log = "0.4"
serde = { version = "1", features = ["derive"] }
serde_yml = "0.0.13"
thiserror = "2"
tokio = { version = "1", features = ["full"] }
tower-service = "0.3"
