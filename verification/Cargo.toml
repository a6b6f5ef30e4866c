[package]
name = "momento_webhook"
version = "0.1.0"
edition = "2021"
publish = false

[dependencies]
hmac = "*"
sha3 = "*"
hex = "*"
chrono = "*"
lambda_http = "*"
tokio = { version = "*", features = ["macros", "rt"] }
aws-config = "*"
aws-sdk-secretsmanager = "*"
tracing = "*"
tracing-subscriber = { version = "*", features = ["env-filter", "json"] }
serde_json = "*"

[dev-dependencies]
