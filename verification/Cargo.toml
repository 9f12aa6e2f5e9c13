[package]
name = "molvakt"
version = "0.1.0"
edition = "2021"
publish = false

[dependencies]
anyhow = "=1.0.104"
async-openai = { version = "=0.43.0", features = ["chat-completion"] }
axum = "=0.8.9"
chrono = "=0.4.45"
chrono-tz = "=0.10.4"
reqwest = { version = "=0.12.28", default-features = false, features = ["json", "rustls-tls"] }
serde = { version = "=1.0.229", features = ["derive"] }
serde_json = "=1.0.154"
sqlx = { version = "=0.9.0", default-features = false, features = ["sqlite", "runtime-tokio", "macros", "migrate"] }
tokio = { version = "=1.54.1", features = ["macros", "rt-multi-thread", "time", "net"] }
