[package]
name = "backend"
version = "0.1.0"
edition = "2021"
publish = false

[dependencies]
argon2 = "0.5"
base64 = "0.22"
serde = { version = "1", features = ["derive"] }
serde_json = "1"
sha2 = "0.10"
hex = "0.4"
uuid = { version = "1", features = ["v4", "serde"] }
urlencoding = "2"
validator = "0.20"
chrono = { version = "0.4", features = ["serde"] }
jsonwebtoken = "9"
tokio = { version = "1", features = ["full"] }
axum = { version = "0.8", features = ["ws"] }
tower-http = { version = "0.6", features = ["cors", "trace"] }
tracing = "0.1"
tracing-subscriber = { version = "0.3", features = ["env-filter"] }
dotenv = "0.15"
sqlx = { version = "0.8", default-features = false, features = ["postgres", "runtime-tokio", "uuid", "chrono"] }
reqwest = { version = "0.12", default-features = false, features = ["json"] }
lettre = { version = "0.11", default-features = false, features = ["builder", "smtp-transport"] }
thiserror = "2"
async-trait = "0.1"
utoipa = { version = "5", features = ["uuid", "chrono"] }
