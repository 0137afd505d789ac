[package]
name = "stonks_rs"
version = "0.1.0"
edition = "2021"
publish = false

[dependencies]
rust_decimal = "1"
chrono = "0.4"
rusqlite = "*"
yahoo_finance_api = "*"
tokio = { version = "1", features = ["full"] }
ratatui = "*"
anyhow = "1"
serde = { version = "1", features = ["derive"] }
toml = "*"
config = { version = "*", default-features = false, features = ["toml"] }
dirs = "*"
tracing = "0.1"
tracing-subscriber = "0.3"
