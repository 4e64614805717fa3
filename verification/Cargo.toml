[package]
name = "simple_git_cicd"
version = "0.1.0"
edition = "2021"
publish = false

[dependencies]
hex = "0.4"
hmac = "0.12"
sha2 = "0.10"
serde_json = "1"
serde = { version = "1", features = ["derive"] }
uuid = { version = "1", features = ["v7"] }
chrono = "0.4"
toml = "*"
axum = "*"
tokio = { version = "1", features = ["full"] }
tokio-stream = { version = "*", features = ["sync"] }
sqlx = { version = "*", default-features = false, features = ["runtime-tokio", "sqlite", "macros"] }
