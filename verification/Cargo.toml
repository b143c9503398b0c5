[package]
name = "pollution_tracker"
version = "0.1.0"
edition = "2021"
publish = false

[dependencies]
anyhow = "=1.0.104"
argon2 = { version = "=0.5.3", features = ["std"] }
axum = "=0.8.9"
bincode = "=1.3.3"
blake3 = "=1.8.7"
chrono = { version = "=0.4.45", features = ["serde"] }
dotenv = "=0.15.0"
jsonwebtoken = "=9.3.1"
serde = { version = "=1.0.229", features = ["derive"] }
serde_json = { version = "=1.0.154", features = ["preserve_order"] }
solana-sdk = "=5.0.0"
sqlx = { version = "=0.8.6", default-features = false, features = ["postgres", "runtime-tokio", "chrono"] }
tokio = { version = "=1.54.1", features = ["full"] }
tower-http = { version = "=0.6.11", features = ["cors"] }
