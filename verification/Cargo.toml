[package]
name = "task-manager-backend"
version = "0.1.0"
edition = "2021"
publish = false

[dependencies]
axum = { version = "=0.6.20", default-features = false, features = ["http1", "json", "tokio"] }
chrono = { version = "=0.4.45", default-features = false, features = ["clock", "serde", "std"] }
cookie = "=0.18.2"
darling = "=0.20.3"
dotenvy = "=0.15.7"
serde = { version = "=1.0.229", features = ["derive"] }
surrealdb = { version = "=1.0.2", default-features = false, features = ["protocol-ws"] }
tokio = { version = "1", features = ["macros", "rt-multi-thread"] }
