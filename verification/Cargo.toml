[package]
name = "homeworker_proxy"
version = "0.1.0"
edition = "2021"
publish = false

[dependencies]
axum = "0.6"
axum-extra = { version = "0.7", features = ["cookie-private"] }
reqwest = { version = "0.11", default-features = false, features = ["rustls-tls"] }
serde = { version = "1", features = ["derive"] }
serde_json = "1"
time = "0.3"
tokio = { version = "1", features = ["macros", "rt-multi-thread"] }
