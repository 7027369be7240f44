[package]
name = "racha"
version = "0.1.0"
edition = "2021"
publish = false

[dependencies]
argon2 = { version = "=0.5.3", features = ["std"] }
askama = "=0.16.1"
askama_web = { version = "=0.16.0", features = ["axum-0.8"] }
axum = "=0.8.9"
chrono = "=0.4.45"
dotenvy = "=0.15.7"
rand = "=0.9.5"
serde = { version = "=1.0.229", features = ["derive"] }
sqlx = { version = "=0.8.6", features = ["runtime-tokio", "postgres", "chrono"] }
tokio = { version = "=1.54.1", features = ["full"] }
tower-http = { version = "=0.7.1", features = ["fs"] }
tower-sessions = "=0.14.0"
tower-sessions-sqlx-store = { version = "=0.15.0", features = ["postgres"] }
tracing = "=0.1.44"
tracing-subscriber = "=0.3.23"
