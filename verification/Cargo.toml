[package]
name = "pumpfun_ingestion"
version = "0.1.0"
edition = "2021"
publish = false

[dependencies]
spl-token = "*"
spl-token-2022 = "*"
solana-program = "*"
tokio = { version = "*", features = ["rt-multi-thread", "macros", "sync", "time", "signal"] }
futures = "*"
anyhow = "*"
thiserror = "*"
chrono = "*"
bigdecimal = "*"
serde = { version = "*", features = ["derive"] }
serde_json = "*"
redis = { version = "*", features = ["tokio-comp"] }
tracing = "*"
dotenv = "*"
