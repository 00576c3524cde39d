[package]
name = "monty_guardrails"
version = "0.1.0"
edition = "2021"
publish = false

[dependencies]
getrandom = "=0.3.4"
hmac = "=0.12.1"
logfire = { version = "=0.13.1", default-features = false, features = ["data-dir", "export-http-protobuf"] }
opentelemetry = "=0.32.0"
opentelemetry_sdk = "=0.32.1"
rlimit = "=0.11.0"
serde = { version = "1", features = ["derive"] }
serde_json = "=1.0.154"
sha2 = "=0.10.9"
tracing = "=0.1.44"
uuid = { version = "=1.29.0", features = ["v7"] }
