[package]
name = "weather_services"
version = "0.1.0"
edition = "2021"
publish = false

[dependencies]
urlencoding = "=2.1.3"
serde = { version = "=1.0.229", features = ["derive"] }
serde_json = "=1.0.154"
tokio = { version = "=1.54.1", features = ["full"] }
tokio-util = "=0.7.20"
reqwest = { version = "=0.12.28", default-features = false, features = ["json"] }
axum = "=0.8.9"
axum-extra = { version = "=0.10.3", features = ["query"] }
tower-http = { version = "=0.6.11", features = ["cors", "trace"] }
tracing = "=0.1.44"
tracing-subscriber = { version = "=0.3.23", features = ["env-filter", "json"] }
sqlx = { version = "=0.8.6", default-features = false, features = ["runtime-tokio", "postgres", "uuid", "chrono"] }
bcrypt = "=0.17.1"
jsonwebtoken = "=9.3.1"
uuid = { version = "=1.29.0", features = ["v4"] }
chrono = "=0.4.45"
thiserror = "=2.0.21"
utoipa = "5"
utoipa-swagger-ui = { version = "9", features = ["axum", "vendored"] }
