[package]
name = "buzzwords"
version = "0.1.0"
edition = "2021"
publish = false

[dependencies]
anyhow = "1"
axum = { version = "0.6", features = ["macros"] }
deadpool-lapin = "0.10"
deadpool-redis = "0.11"
dotenvy = "0.15"
futures = "0.3"
lapin = "2"
mongodb = "2"
redis = { version = "0.22", features = ["aio", "json", "tokio-comp"] }
serde = { version = "1", features = ["derive"] }
serde_json = "1"
time = { version = "0.3", features = ["serde"] }
tokio = { version = "1", features = ["macros", "rt-multi-thread", "signal"] }
tower = "0.4"
tower-http = { version = "0.4", features = ["request-id", "timeout", "trace", "util"] }
tracing = { version = "0.1", features = ["log"] }
tracing-subscriber = { version = "0.3", features = ["env-filter"] }
