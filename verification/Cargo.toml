[package]
name = "amalgam"
version = "0.1.0"
edition = "2021"
publish = false

[dependencies]
async-trait = "0.1"
dashmap = "6"
fastrand = "2"
metrics = "*"
moka = { version = "0.12", features = ["future"] }
opentelemetry = "*"
opentelemetry-otlp = { version = "*", features = ["grpc-tonic"] }
opentelemetry_sdk = { version = "*", features = ["rt-tokio"] }
postcard = { version = "1", features = ["alloc"] }
redis = { version = "*", features = ["tokio-comp", "connection-manager", "aio"] }
rmp-serde = "1"
serde = { version = "1", features = ["derive"] }
serde_json = "1"
thiserror = "2"
tokio = { version = "1", features = ["rt", "rt-multi-thread", "macros", "sync", "time"] }
tracing = "0.1"
tracing-opentelemetry = "*"
tracing-subscriber = { version = "0.3", features = ["env-filter"] }
