[package]
name = "email_manager"
version = "0.1.0"
edition = "2021"
publish = false

[dependencies]
actix-web = "4"
anyhow = "1"
chrono = "=0.4.45"
dotenvy = "0.15"
google-gmail1 = { version = "=7.0.0+20251215", features = ["yup-oauth2-service-account"] }
serde = { version = "1", features = ["derive"] }
serde_json = "1"
thiserror = "1"
tokio = { version = "1", features = ["macros", "rt-multi-thread", "sync"] }
tracing = "0.1"
tracing-subscriber = "0.3"
