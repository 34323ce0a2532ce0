[package]
name = "http_send"
version = "0.1.0"
edition = "2021"
publish = false

[dependencies]
anyhow = "1"
duration-str = "0.7"
http = "0.2"
http-cache-reqwest = { version = "0.13", default-features = false, features = ["manager-moka"] }
http-serde = "1.1"
reqwest = { version = "0.11", features = ["json"] }
reqwest-middleware = "0.2"
reqwest-retry = "0.3"
serde = { version = "1", features = ["derive"] }
serde_json = "1"
serde_yaml = "0.9"
tracing = "0.1"

[dev-dependencies]
tokio = { version = "1", features = ["rt"] }
