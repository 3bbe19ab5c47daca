[package]
name = "hello_world"
version = "0.1.0"
edition = "2021"
publish = false

[dependencies]
anyhow = "1"
axum = "0.5"
axum-tracing-opentelemetry = "0.5"
azure_core = "0.8"
azure_identity = "0.9"
azure_security_keyvault = "0.8"
config = { version = "0.13", default-features = false, features = ["json"] }
futures = "0.3"
log = "0.4"
opentelemetry = { version = "0.18", features = ["rt-tokio"] }
opentelemetry-application-insights = { version = "0.22", features = ["reqwest-client"] }
opentelemetry-jaeger = { version = "0.17", features = ["rt-tokio"] }
opentelemetry-semantic-conventions = "0.10"
opentelemetry-zipkin = { version = "0.16", default-features = false, features = ["reqwest-client"] }
reqwest = "0.11"
serde = { version = "1", features = ["derive"] }
thiserror = "1"
tokio = { version = "1", features = ["rt-multi-thread", "signal"] }
tower-http = { version = "0.3", features = ["cors"] }
tracing = { version = "0.1", features = ["log"] }
tracing-log = "0.1"
tracing-opentelemetry = "0.18"
tracing-subscriber = { version = "0.3", features = ["env-filter"] }
