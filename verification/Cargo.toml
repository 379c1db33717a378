[package]
name = "restson"
version = "1.5.0"
edition = "2021"
publish = false

[dependencies]
base64 = "0.13"
hyper = { version = "0.14", features = ["client", "http1", "http2", "tcp"] }
hyper-tls = "0.5"
hyper-rustls = { version = "0.23", features = ["http2"] }
log = "0.4"
serde = "1"
serde_json = "1"
tokio = { version = "1", features = ["rt", "time"] }
url = "2"
