[package]
name = "expiry_metrics"
version = "0.1.0"
edition = "2021"
publish = false

[dependencies]
axum = "=0.8.9"
chrono = { version = "=0.4.45", features = ["serde"] }
dotenv = "=0.15.0"
reqwest = { version = "=0.13.5", default-features = false, features = ["form", "json"] }
serde = { version = "=1.0.229", features = ["derive"] }
tokio = { version = "=1.53.2", features = ["macros", "rt", "sync", "time", "signal", "net"] }
