[package]
name = "customer_support"
version = "0.1.0"
edition = "2021"
publish = false

[dependencies]
axum = "0.7"
bcrypt = "0.15"
chrono = "0.4"
dotenvy = "0.15"
jsonwebtoken = "9"
lettre = "0.11"
mailparse = "0.15"
native-tls = "0.2"
imap = "2"
once_cell = "1"
serde = { version = "1", features = ["derive"] }
serde_json = { version = "1", features = ["raw_value"] }
sqlx = { version = "0.7", features = ["sqlite", "runtime-tokio"] }
time = "0.3"
tokio = { version = "1", features = ["full"] }
tower-http = { version = "0.5", features = ["cors"] }
uuid = { version = "1", features = ["v4"] }
