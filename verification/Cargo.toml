[package]
name = "request_executor"
version = "0.1.0"
edition = "2021"
publish = false

[dependencies]
chrono = "0.4"
lambda_runtime = "0.4"
reqwest = "0.11"
serde = { version = "1", features = ["derive"] }
serde_json = "1"
tokio = { version = "1", features = ["macros", "rt-multi-thread"] }
