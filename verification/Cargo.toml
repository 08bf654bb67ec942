[package]
name = "polls"
version = "0.1.0"
edition = "2021"
publish = false

[dependencies]
axum = "0.7"
axum-prometheus = "0.6"
chrono = "0.4"
log = "0.4"
sea-orm = { version = "0.12", default-features = false, features = ["macros", "with-json", "with-chrono", "sqlx-postgres", "runtime-tokio-rustls"] }
serde = { version = "1", features = ["derive"] }
serde_json = "1"
socketioxide = "0.14"
tokio = { version = "1", features = ["full"] }
tower-http = { version = "0.5", features = ["cors", "fs", "trace"] }
tracing = "0.1"
tracing-subscriber = "0.3"
