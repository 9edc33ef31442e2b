[package]
name = "binance_client"
version = "0.1.0"
edition = "2021"
publish = false

[dependencies]
chrono = "0.4"
failure = "0.1"
futures = "0.3"
hmac = "0.12"
serde = { version = "1", features = ["derive"] }
serde_json = "1"
sha2 = "0.10"
