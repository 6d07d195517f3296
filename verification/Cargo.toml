[package]
name = "ffxiv_bot"
version = "0.1.0"
edition = "2021"
publish = false

[dependencies]
dotenvy = "0.15"
env_logger = "0.10"
futures = "0.3"
poise = "0.6"
reqwest = { version = "0.11", default-features = false, features = ["json", "rustls-tls"] }
serde = { version = "1", features = ["derive"] }
serde_json = "1"
serenity = "0.12"
sqlx = { version = "0.7", default-features = false, features = ["sqlite", "runtime-tokio", "macros"] }
tokio = { version = "1", features = ["macros", "rt-multi-thread"] }
