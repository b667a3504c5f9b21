[package]
name = "auth_service"
version = "0.1.0"
edition = "2021"
publish = false

[dependencies]
uuid = { version = "=1.27.0", features = ["v4"] }
rand = "=0.10.3"
argon2 = { version = "=0.5.3", features = ["std"] }
hmac = "0.12"
sha2 = "0.10"
serde = { version = "1", features = ["derive"] }
tokio = { version = "1", features = ["full"] }
axum = "=0.8.9"
axum-extra = { version = "=0.12.6", features = ["cookie"] }
tower-http = { version = "=0.7.1", features = ["fs", "cors"] }
sqlx = { version = "=0.9.0", features = ["runtime-tokio", "postgres", "migrate"] }
redis = "=1.7.1"
async-trait = "0.1"
