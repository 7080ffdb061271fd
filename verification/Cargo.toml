[package]
name = "publisher"
version = "0.1.0"
edition = "2021"
publish = false

[dependencies]
crc32fast = "*"
uuid = { version = "*", features = ["v4", "serde"] }
serde = { version = "*", features = ["derive"] }
serde_json = "*"
anyhow = "*"
thiserror = "*"
amqprs = "*"
axum = "*"
tokio = { version = "*", features = ["full"] }
sqlx = { version = "*", default-features = false, features = ["runtime-tokio", "postgres", "uuid", "chrono", "json", "derive"] }
chrono = { version = "*", features = ["serde"] }
dotenvy = "*"
tracing = "*"
tracing-subscriber = { version = "*", features = ["env-filter", "fmt", "registry"] }
tracing-opentelemetry = "*"
opentelemetry = "*"
opentelemetry_sdk = "*"
opentelemetry-otlp = { version = "*", default-features = false, features = ["grpc-tonic", "trace"] }
metrics = "*"
metrics-exporter-prometheus = { version = "*", default-features = false }
