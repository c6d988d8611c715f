[package]
name = "inheritx_backend"
version = "0.1.0"
edition = "2021"
publish = false

[dependencies]
rust_decimal = { version = "1", features = ["serde"] }
chrono = { version = "0.4", features = ["serde"] }
uuid = { version = "1", features = ["v4", "serde"] }
sqlx = { version = "*", default-features = false, features = ["postgres", "runtime-tokio", "chrono", "uuid"] }
tokio = { version = "1", features = ["sync", "rt-multi-thread", "net"] }
axum = "0.7"
serde = { version = "1", features = ["derive"] }
serde_json = "1"
anyhow = "1"
async-trait = "0.1"
tracing = "0.1"
thiserror = "1"
soroban-sdk = "*"
