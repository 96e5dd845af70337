[package]
name = "rustdesk_ab"
version = "0.2.0"
edition = "2021"
publish = false

[dependencies]
axum = "0.8"
chrono = "0.4"
rand = "0.8"
serde = { version = "1", features = ["derive"] }
serde_json = "1"
sqlx = { version = "0.8", default-features = false, features = ["sqlite", "runtime-tokio"] }
toml = "0.8"
tracing = "0.1"
uuid = { version = "1", features = ["v4"] }
