[package]
name = "axum-response-cache"
version = "0.1.0"
edition = "2021"
publish = false

[dependencies]
axum = { version = "=0.8.9", default-features = false }
cached = { version = "=0.59.0", default-features = false, features = ["time_stores"] }
http = "=1.5.0"
tower = { version = "=0.5.3", default-features = false }
