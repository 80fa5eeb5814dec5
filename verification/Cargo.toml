[package]
name = "session_core"
version = "0.1.0"
edition = "2021"
publish = false

[dependencies]
jsonwebtoken = "9"
serde = { version = "1", features = ["derive"] }
serde_json = { version = "1", features = ["preserve_order"] }
chrono = { version = "0.4", features = ["serde"] }
uuid = { version = "1", features = ["v4", "serde"] }
argon2 = "0.5"
hmac = "0.12"
sha2 = "0.10"
cans = "*"
lettre = "0.11"
axum = "0.8"
tower-cookies = "*"
tokio = { version = "1", features = ["full"] }
sqlx = { version = "0.8", features = ["macros", "runtime-tokio", "postgres", "uuid", "chrono"] }
sea-query = "0.32"
sea-query-binder = { version = "0.7", features = ["sqlx-postgres", "with-uuid", "with-chrono"] }
modql = { version = "0.4", features = ["with-sea-query"] }
serde_valid = "*"
strum_macros = "*"
derive_more = { version = "*", features = ["from", "display"] }
tracing = "0.1"
tracing-subscriber = { version = "0.3", features = ["env-filter"] }
dotenvy = "0.15"
ali-oss-rs = "*"
