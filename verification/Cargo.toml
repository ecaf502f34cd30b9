[package]
name = "discord_chatbot"
version = "0.1.0"
edition = "2021"
publish = false

[dependencies]
ed25519-dalek = "1"
hex = "0.4"
serde_json = "1"
serde = { version = "1", features = ["derive"] }
reqwest = { version = "0.11", default-features = false, features = ["json", "stream", "rustls-tls"] }
tokio = { version = "1", features = ["macros", "rt-multi-thread"] }
lambda_http = "*"
lambda_runtime = "*"
aws-config = "*"
aws-sdk-dynamodb = "*"
aws_lambda_events = "*"
serde_dynamo = "*"
chrono = "0.4"
clap = { version = "4", features = ["derive"] }
tracing = "0.1"
tracing-subscriber = { version = "0.3", features = ["json"] }
