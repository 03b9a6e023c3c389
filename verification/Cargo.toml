[package]
name = "student_service"
version = "0.1.0"
edition = "2021"
publish = false

[dependencies]
serde = { version = "1", features = ["derive"] }
serde_json = "1"
validator = "0.18"
uuid = { version = "1", features = ["v4", "serde"] }
chrono = { version = "0.4", features = ["serde"] }
axum = "0.7"
tokio = { version = "1", features = ["macros", "rt-multi-thread", "net", "signal"] }
sqlx = { version = "0.7", default-features = false, features = ["runtime-tokio", "postgres", "uuid", "chrono"] }
redis = { version = "0.24", default-features = false, features = ["aio", "tokio-comp", "connection-manager"] }
rdkafka = { version = "0.36", default-features = false, features = ["tokio"] }
sentry = { version = "0.32", default-features = false }
sentry-tracing = "0.32"
tracing = "0.1"
tracing-subscriber = { version = "0.3", features = ["json", "env-filter"] }
tracing-opentelemetry = "0.22"
opentelemetry = "0.21"
opentelemetry_sdk = { version = "0.21", features = ["rt-tokio"] }
opentelemetry-otlp = "0.14"
opentelemetry-semantic-conventions = "0.13"
tower-http = { version = "0.5", features = ["cors", "compression-gzip", "trace"] }
axum-prometheus = "0.6"
dotenvy = "0.15"
dotenv = "0.15"
