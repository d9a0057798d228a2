[package]
name = "albert"
version = "0.1.0"
edition = "2021"
publish = false

[dependencies]
hex = "0.4"
ed25519-dalek = "2"
time = { version = "0.3", features = ["parsing"] }
urlencoding = "2"
readability = { version = "0.3", default-features = false }
reqwest = { version = "0.12", default-features = false, features = ["json", "rustls-tls"] }
serde = { version = "1", features = ["derive"] }
serde_json = "1"
anyhow = "1"
tokio = { version = "1", features = ["full"] }
uuid = { version = "1", features = ["v4"] }
serenity = "0.12"
aws-config = "1"
aws-sdk-bedrockruntime = "1"
aws-sdk-lambda = "1"
lambda_http = "*"
lambda_runtime = "*"
tracing = "0.1"
tracing-subscriber = { version = "0.3", features = ["json", "env-filter"] }
dotenv = "0.15"
