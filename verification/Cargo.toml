[package]
name = "chat_server"
version = "0.1.0"
edition = "2021"
publish = false

[dependencies]
serde_json = "1"
serde = { version = "1", features = ["derive"] }
actix-web = "4"
actix-cors = "0.7"
actix-session = { version = "0.10", features = ["redis-session"] }
sqlx = { version = "0.8", default-features = false, features = ["mysql", "runtime-tokio", "json", "macros"] }
thiserror = "1"
anyhow = "1"
tokio = { version = "1", features = ["macros", "rt"] }
tracing = "0.1"
tracing-subscriber = { version = "0.3", features = ["env-filter"] }
dotenvy = "0.15"
