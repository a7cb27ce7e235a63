[package]
name = "openlaunch"
version = "0.1.0"
edition = "2021"
publish = false

[dependencies]
dashmap = "=6.1.0"
bigdecimal = "=0.4.11"
anyhow = "1.0"
thiserror = "2.0"
serde = { version = "1.0", features = ["derive"] }
serde_json = "1.0"
tokio = { version = "1.40", features = ["full"] }
tracing = "0.1"
tracing-subscriber = { version = "0.3", features = ["env-filter", "json"] }
axum = { version = "0.8", features = ["multipart"] }
tower-http = { version = "0.6", features = ["cors"] }
uuid = { version = "1", features = ["v4"] }
chrono = "0.4"
dotenvy = "0.15"
lazy_static = "1.5"
sqlx = { version = "0.8", default-features = false, features = ["postgres", "runtime-tokio", "macros", "bigdecimal"] }
utoipa = { version = "5", features = ["axum_extras"] }
utoipa-swagger-ui = { version = "9", features = ["axum"] }
