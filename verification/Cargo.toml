[package]
name = "icann_rdap"
version = "0.1.0"
edition = "2021"
publish = false

[dependencies]
async-trait = "0.1"
axum = "0.6"
axum-macros = "0.3"
dotenv = "0.15"
envmnt = "0.10"
serde = { version = "1", features = ["derive"] }
serde_json = "1"
sqlx = { version = "0.6", default-features = false, features = ["runtime-tokio-rustls", "postgres"] }
strum = "0.24"
strum_macros = "0.24"
tokio = { version = "1", features = ["full"] }
tracing = "0.1"
