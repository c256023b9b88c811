[package]
name = "bifrost"
version = "0.1.0"
edition = "2021"
publish = false

[dependencies]
mongodb = "2"
serde = { version = "1", features = ["derive"] }
strum = "0.26"
strum_macros = "0.26"
axum = "0.7"
askama = "0.12"
dotenv = "0.15"
tokio = { version = "1", features = ["full"] }
tracing = "0.1"
tracing-subscriber = { version = "0.3", features = ["env-filter"] }
