[package]
name = "nori"
version = "0.1.0"
edition = "2021"
publish = false

[dependencies]
anyhow = "1"
argon2 = "0.5"
axum = "0.6"
axum-extra = { version = "0.8", features = ["cookie", "cookie-private"] }
bytes = "1"
chrono = "0.4"
dotenv = "0.15"
hex = "0.4"
mime = "0.3"
rand = "0.8"
sea-orm = { version = "0.12", default-features = false, features = ["macros", "with-chrono", "with-uuid", "sqlx-sqlite", "runtime-tokio-rustls"] }
serde = { version = "1", features = ["derive"] }
serde_json = "1"
thiserror = "1"
tokio = { version = "1", features = ["macros", "rt-multi-thread"] }
tower-http = { version = "0.4", features = ["fs", "trace"] }
tracing = { version = "0.1", features = ["log"] }
tracing-subscriber = "0.3"
uuid = { version = "1", features = ["v4"] }
