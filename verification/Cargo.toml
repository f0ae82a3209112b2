[package]
name = "axum_maintenance"
version = "0.1.0"
edition = "2021"
publish = false

[dependencies]
axum = { version = "*", default-features = false }
futures-util = { version = "*", default-features = false, features = ["std"] }
tokio = { version = "*", default-features = false, features = ["rt", "sync"] }
tower-layer = "*"
tower-service = "*"
