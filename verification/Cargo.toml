[package]
name = "csv_analyzer_api"
version = "0.1.0"
edition = "2021"
publish = false

[dependencies]
axum = { version = "*", features = ["multipart", "macros"] }
chrono = "*"
csv_processor = "*"
serde = { version = "*", features = ["derive"] }
serde_json = "*"
sqlx = { version = "*", features = ["sqlite", "runtime-tokio"] }
tokio = { version = "*", features = ["full"] }
uuid = { version = "*", features = ["v4"] }
