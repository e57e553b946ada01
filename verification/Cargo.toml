[package]
name = "akinator"
version = "0.1.0"
edition = "2021"
publish = false

[dependencies]
regex = "=1.13.1"
reqwest = { version = "=0.12.4", features = ["json"] }
serde = { version = "=1.0.229", features = ["derive"] }
serde_repr = "=0.1.21"
tokio = { version = "=1.54.1", features = ["full"] }
axum = "=0.7.9"
http = "=1.5.0"
tracing = "=0.1.44"
anyhow = "=1.0.104"
chrono = "=0.4.45"
traq = "=0.1.5"
traq-bot-http = "=0.11.3"
async-session = "=3.0.0"
async-sqlx-session = { version = "=0.4.0", default-features = false, features = ["mysql"] }
sqlx = { version = "=0.5.13", features = ["mysql", "runtime-tokio-rustls", "migrate"] }
graphql_client = "=0.13.0"
