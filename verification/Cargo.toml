[package]
name = "api_server"
version = "0.1.0"
edition = "2021"
publish = false

[dependencies]
anyhow = "=1.0.104"
async-trait = "=0.1.92"
axum = { version = "=0.6.20", features = ["multipart", "headers"] }
bytes = "=1.12.1"
chrono = "=0.4.45"
clap = { version = "=4.6.7", features = ["derive", "env"] }
futures = "=0.3.34"
jsonwebtoken = "=8.3.0"
reqwest = { version = "=0.11.27", default-features = false }
sea-orm = { version = "=0.11.3", default-features = false, features = ["sqlx-sqlite", "runtime-tokio-rustls", "macros", "with-chrono"] }
sea-orm-migration = { version = "=0.11.3", default-features = false, features = ["sqlx-sqlite", "runtime-tokio-rustls"] }
serde = { version = "=1.0.229", features = ["derive"] }
serde_json = "=1.0.154"
thiserror = "=1.0.69"
tokio = { version = "=1.54.1", features = ["full"] }
tower = "=0.4.13"
tower-http = { version = "=0.4.4", features = ["auth", "compression-gzip", "cors", "trace"] }
tracing = "=0.1.44"
tracing-subscriber = "=0.3.23"
uuid = { version = "=1.29.1", features = ["v4"] }
