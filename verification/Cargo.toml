[package]
name = "arbitrage"
version = "0.1.0"
edition = "2021"
publish = false

[dependencies]
chrono = "*"
log = "*"
env_logger = "*"
rand = "*"
tokio = { version = "*", features = ["full"] }
