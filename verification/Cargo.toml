[package]
name = "max_payne_bot"
version = "0.1.0"
edition = "2021"
publish = false

[dependencies]
anyhow = "=1.0.104"
csv = "=1.4.0"
dotenv = "=0.15.0"
rand = "=0.8.8"
reqwest = { version = "=0.12.28", default-features = false }
reqwest-oauth1 = "=0.3.0"
serde = { version = "=1.0.229", features = ["derive"] }
serde_json = "=1.0.154"
stargate-grpc = "=0.4.0"
tokio = { version = "=1.54.1", features = ["full"] }
