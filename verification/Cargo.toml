[package]
name = "solana_quiz"
version = "0.1.0"
edition = "2021"
publish = false

[dependencies]
anyhow = "1"
async-trait = "0.1"
clap = { version = "4.5.61", features = ["derive"] }
dotenv = "0.15.0"
rdkafka = "=0.36.2"
serde = { version = "1", features = ["derive"] }
serde_json = "1"
solana-program = "=1.18.26"
solana-sdk = "=1.18.26"
spl-associated-token-account = "2.3"
spl-token = "4"
tokio = { version = "1", features = ["rt-multi-thread", "macros", "signal"] }
tracing = "0.1"
tracing-subscriber = "0.3"
