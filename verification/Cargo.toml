[package]
name = "querygate"
version = "0.1.0"
edition = "2021"
publish = false

[dependencies]
chrono = "=0.4.45"
serde = { version = "=1.0.229", features = ["derive"] }
serde_json = "=1.0.151"
sqlx = { version = "=0.8.6", default-features = false, features = ["runtime-tokio", "postgres", "mysql", "sqlite", "chrono", "json"] }
redis = "=0.27.6"
tokio = { version = "=1.53.2", features = ["rt-multi-thread", "macros"] }
