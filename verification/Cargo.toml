[package]
name = "errorinfo"
version = "0.1.0"
edition = "2021"
publish = false

[dependencies]
uuid = { version = "1", features = ["v4"] }
http = "1"
axum = { version = "0.7", default-features = false, features = ["json"] }
serde = { version = "1", features = ["derive"] }
tracing = "0.1"
lazy_static = "1"

[dev-dependencies]
serde_json = "1"
