[package]
name = "pastefile"
version = "0.1.0"
edition = "2021"
publish = false

[dependencies]
argon2 = "=0.5.3"
qrcode = { version = "=0.14.1", default-features = false }
base64 = "=0.22.1"
rand = "=0.8.8"
sled = "=0.34.7"
tokio = { version = "=1.54.1", features = ["full"] }
axum = { version = "=0.7.9", features = ["multipart"] }
tower = { version = "=0.5.3", features = ["util"] }
tower-http = { version = "=0.5.2", features = ["fs", "cors"] }
chrono = { version = "=0.4.45", features = ["serde"] }
serde = { version = "=1.0.229", features = ["derive"] }
serde_json = "=1.0.154"
bincode = "=1.3.3"
clap = { version = "=4.6.7", features = ["derive"] }
config = "=0.14.1"
hyper = { version = "1", features = ["server", "http1", "http2"] }
hyper-util = { version = "=0.1.21", features = ["tokio", "server-auto"] }
tokio-rustls = { version = "0.26", default-features = false, features = ["ring", "tls12"] }
rustls-pemfile = "2"
