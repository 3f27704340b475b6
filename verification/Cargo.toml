[package]
name = "bender"
version = "0.1.0"
edition = "2021"
publish = false

[dependencies]
actix = "=0.13.5"
actix-web = { version = "=4.18.1", default-features = false, features = ["macros"] }
actix-rt = "=2.15.0"
async-trait = "=0.1.92"
azure_identity = "=1.0.0"
azure_storage_blob = "=1.1.0"
chrono = { version = "=0.4.45", features = ["serde"] }
futures = "=0.3.34"
mime = "=0.3.17"
opentelemetry = "=0.33.1"
opentelemetry-application-insights = "=0.46.0"
opentelemetry-http = { version = "=0.33.1", features = ["reqwest-blocking"] }
opentelemetry-otlp = { version = "0.33", default-features = false, features = ["trace", "http-proto", "reqwest-blocking-client"] }
opentelemetry-stdout = "=0.33.1"
opentelemetry_sdk = "=0.33.1"
prometheus = "=0.14.0"
rand = "=0.8.8"
reqwest = { version = "=0.13.5", features = ["blocking"] }
sentry = { version = "*", default-features = false, features = ["reqwest", "rustls"] }
serde = { version = "=1.0.229", features = ["derive"] }
serde_json = "=1.0.154"
tokio = { version = "=1.54.1", features = ["sync", "rt", "macros"] }
tracing = "=0.1.44"
tracing-actix-web = "*"
tracing-opentelemetry = "=0.34.0"
tracing-subscriber = "=0.3.23"
uuid = { version = "=1.29.0", features = ["v4"] }
