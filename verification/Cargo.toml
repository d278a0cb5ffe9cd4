[package]
name = "rust_parallel_operations"
version = "0.1.0"
edition = "2021"
publish = false

[dependencies]
aws-config = "*"
aws-sdk-dynamodb = "*"
futures = "*"
lambda_runtime = "*"
serde_json = "*"
tokio = { version = "*", features = ["macros", "rt"] }
