[package]
name = "pick_list"
version = "0.1.0"
edition = "2021"
publish = false

[dependencies]
axum = "=0.6.20"
opentelemetry = { version = "=0.20.0", features = ["rt-tokio"] }
opentelemetry-otlp = { version = "=0.13.0", features = ["http-proto", "reqwest-client", "reqwest-rustls"] }
opentelemetry-semantic-conventions = "=0.12.0"
reqwest = { version = "=0.11.27", default-features = false, features = ["rustls-tls"] }
tokio = { version = "=1.53.2", features = ["macros", "rt-multi-thread", "signal"] }
tower = "=0.4.13"
tower-http = { version = "=0.4.4", features = ["trace"] }
tracing = "=0.1.44"
tracing-opentelemetry = "=0.20.0"
tracing-subscriber = "=0.3.23"
