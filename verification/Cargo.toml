[package]
name = "gestor"
version = "0.1.0"
edition = "2021"
publish = false

[dependencies]
chrono = "0.4"
axum = "0.7"
tokio = { version = "1", features = ["macros", "rt-multi-thread", "sync"] }
sqlx = { version = "0.8", default-features = false, features = ["runtime-tokio", "sqlite"] }
serde = { version = "1", features = ["derive"] }
serde_json = "1"
utoipa = "4"
uuid = { version = "1", features = ["v4"] }
tracing = "0.1"
dotenvy = "0.15"
async-trait = "0.1"
