[package]
name = "mediator"
version = "0.1.0"
edition = "2021"
publish = false

[dependencies]
config = "*"
derive_more = { version = "*", features = ["from"] }
opentelemetry = "*"
opentelemetry_sdk = "*"
opentelemetry-otlp = { version = "*", features = ["grpc-tonic"] }
serde = { version = "*", features = ["derive"] }
serde_json = "*"
strum = { version = "*", features = ["derive"] }
thiserror = "*"
tracing = "*"
tracing-opentelemetry = "*"
tracing-subscriber = "*"
