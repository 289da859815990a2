[package]
name = "geoform_backend"
version = "0.1.0"
edition = "2021"
publish = false

[dependencies]
anyhow = "1"
argon2 = { version = "=0.5.3", features = ["std"] }
axum = "0.8"
base64 = "=0.22.1"
chrono = "0.4"
clap = { version = "4", features = ["derive"] }
jsonwebtoken = "=9.3.1"
moka = { version = "0.12", features = ["future"] }
sea-orm = { version = "1.1", default-features = false, features = ["macros", "sqlx-postgres", "runtime-tokio-rustls", "with-chrono", "with-uuid"] }
serde = { version = "1", features = ["derive"] }
serde_json = "=1.0.154"
tokio = { version = "1", features = ["full"] }
toml = "0.8"
tower = { version = "0.5", features = ["buffer", "limit", "timeout", "util"] }
tower-http = { version = "0.6", features = ["cors", "trace"] }
tracing = "0.1"
tracing-appender = "0.2"
tracing-subscriber = { version = "0.3", features = ["env-filter"] }
uuid = { version = "=1.29.0", features = ["v7"] }
validator = { version = "=0.18.1", features = ["derive"] }
