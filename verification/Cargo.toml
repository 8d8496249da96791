[package]
name = "isitonline"
version = "0.1.0"
edition = "2021"
publish = false

[dependencies]
actix-files = "0.6"
actix-web = "4"
actix-web-lab = "*"
askama = "*"
async-cron-scheduler = "*"
chrono = "0.4"
env_logger = "*"
futures = "0.3"
log = "0.4"
reqwest = { version = "0.11", default-features = false, features = ["rustls-tls"] }
serde = { version = "1", features = ["derive"] }
sqlx = { version = "*", default-features = false, features = ["sqlite", "runtime-tokio", "chrono"] }
tokio = { version = "1", features = ["sync", "rt", "time", "macros"] }
tokio-stream = "0.1"
