[package]
name = "todo_backend"
version = "0.1.0"
edition = "2021"
publish = false

[dependencies]
anyhow = "1"
axum = "0.6"
chrono = { version = "0.4", features = ["serde"] }
diesel = { version = "2", features = ["sqlite", "chrono"] }
dotenvy = "0.15"
serde = { version = "1", features = ["derive"] }
tokio = { version = "1", features = ["full"] }
ulid = { version = "1", features = ["serde"] }
