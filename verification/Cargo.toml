[package]
name = "eth_events"
version = "0.1.0"
edition = "2021"
publish = false

[dependencies]
alloy = { version = "=2.5.0", default-features = false }
anyhow = "=1.0.104"
axum = "=0.8.9"
config = "=0.15.27"
env_logger = "=0.11.11"
futures-util = "=0.3.34"
log = "=0.4.34"
serde = { version = "=1.0.229", features = ["derive"] }
serde_json = "=1.0.151"
sqlx = { version = "=0.9.0", default-features = false, features = ["runtime-tokio", "postgres"] }
thiserror = "=2.0.21"
tokio = { version = "=1.53.2", features = ["full"] }
tokio-tungstenite = "*"
