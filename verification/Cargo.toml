[package]
name = "falidex"
version = "0.1.0"
edition = "2021"
publish = false

[dependencies]
axum = { version = "0.8", features = ["multipart"] }
axum-jwt = "*"
base64 = "0.22"
chrono = "0.4"
dotenvy = "0.15"
futures = "0.3"
hex = "0.4"
jsonschema = { version = "*", default-features = false }
jsonwebtoken = "9"
mongodb = "3"
once_cell = "1"
reqwest = { version = "0.12", default-features = false, features = ["json", "multipart", "rustls-tls"] }
serde = { version = "1", features = ["derive"] }
serde_json = "1"
sha2 = "0.10"
simple_crypt = "*"
tokio = { version = "1", features = ["full"] }
tower-http = { version = "0.6", features = ["cors"] }
uuid = { version = "1", features = ["v4"] }
