[package]
name = "logs_router"
version = "0.1.0"
edition = "2021"
publish = false

[dependencies]
async-trait = "*"
log = "*"
opentelemetry = "*"
opentelemetry-proto = { version = "*", default-features = false, features = ["gen-tonic", "logs"] }
tonic = { version = "*", features = ["gzip"] }
tracing = "*"
tracing-opentelemetry = "*"

[dev-dependencies]
opentelemetry_sdk = "*"
