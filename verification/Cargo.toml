[package]
name = "subbers"
version = "0.1.0"
edition = "2021"
publish = false

[dependencies]
chrono = "*"
axum = "*"
tokio = { version = "*", features = ["full"] }
maud = { version = "*", features = ["axum"] }
rusqlite = { version = "*", features = ["bundled"] }
serde = { version = "*", features = ["derive"] }
serde_json = "*"
base64 = "*"
mime = "*"
tracing = "*"
tracing-subscriber = { version = "*", features = ["env-filter"] }
