[package]
name = "vector_service"
version = "0.1.0"
edition = "2021"
publish = false

[dependencies]
libc = "0.2"
log = { version = "0.4", features = ["kv"] }
opentelemetry = { version = "0.24", features = ["trace", "metrics"] }
opentelemetry-otlp = { version = "0.17", features = ["grpc-tonic", "trace", "metrics"] }
opentelemetry_sdk = { version = "0.24", features = ["trace", "metrics", "rt-tokio"] }
prost = "0.13"
structured-logger = "1"
tokio = { version = "1", features = ["rt-multi-thread", "sync", "macros"] }
tonic = "0.12"
