[package]
name = "bearer_auth"
version = "0.1.0"
edition = "2021"
publish = false

[dependencies]
jsonwebtoken = "=9.3.1"
serde_json = "=1.0.154"
chrono = "=0.4.45"
validator = { version = "=0.21.0", features = ["derive"] }
serde = { version = "=1.0.229", features = ["derive"] }
axum = "=0.8.9"
reqwest = { version = "=0.12.28", default-features = false, features = ["rustls-tls"] }
tokio = { version = "=1.54.1", features = ["full"] }
tower = "=0.5.3"
tower-http = { version = "=0.6.11", features = ["trace"] }
tracing = "=0.1.44"
tracing-subscriber = { version = "=0.3.23", features = ["env-filter"] }
thiserror = "=2.0.21"
anyhow = "=1.0.104"
uuid = { version = "=1.29.0", features = ["v4", "serde"] }
sea-orm = { version = "=1.1.20", default-features = false, features = ["macros", "sqlx-postgres", "runtime-tokio-rustls", "with-uuid", "with-chrono"] }
envy = "=0.4.2"
dotenvy = "=0.15.7"
once_cell = "=1.21.4"
async-trait = "=0.1.92"

[dev-dependencies]
rsa = "=0.9.10"
rand = "=0.8.8"
