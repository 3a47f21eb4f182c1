[package]
name = "product_catalog"
version = "0.1.0"
edition = "2021"
publish = false

[dependencies]
anyhow = "1"
axum = "0.6"
base64 = "0.21"
futures = "0.3"
image = { version = "*", default-features = false, features = ["png", "jpeg", "gif", "bmp", "webp"] }
jwt = "0.16"
log = "0.4"
mongodb = "2"
reqwest = { version = "0.11", default-features = false, features = ["json", "rustls-tls"] }
rxing = "*"
serde = { version = "1", features = ["derive"] }
serde_json = "1"
thiserror = "1"
tokio = { version = "1", features = ["rt-multi-thread", "macros", "net"] }
tracing = "0.1"
