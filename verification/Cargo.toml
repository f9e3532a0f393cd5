[package]
name = "rejki"
version = "0.1.0"
edition = "2021"
publish = false

[dependencies]
ammonia = "4"
anyhow = "1"
async-trait = "0.1"
axum = "0.8"
chrono = { version = "0.4", features = ["serde"] }
dotenvy = "0.15"
serde = { version = "1", features = ["derive"] }
serde_json = "1"
thiserror = "2"
tokio = { version = "1", features = ["full"] }
tracing = "0.1"
uuid = { version = "1", features = ["v4", "v7", "serde"] }
validator = { version = "0.20", features = ["derive"] }
