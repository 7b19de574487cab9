[package]
name = "finlife"
version = "0.1.0"
edition = "2021"
publish = false

[dependencies]
uuid = { version = "=1.29.0", features = ["serde"] }
rust_decimal = { version = "=1.43.0", features = ["serde"] }
argon2 = "=0.5.3"
rand = "=0.8.8"
chacha20poly1305 = "=0.10.1"
base64 = "=0.22.1"
zeroize = "=1.9.1"
sha2 = "=0.10.9"
chrono = { version = "=0.4.45", features = ["serde"] }
serde = { version = "=1.0.229", features = ["derive"] }
serde_json = "=1.0.154"
anyhow = "=1.0.104"
thiserror = "=2.0.21"
tokio = { version = "=1.54.1", features = ["rt-multi-thread", "macros", "net", "time"] }
axum = "=0.8.9"
tower-http = { version = "=0.6.11", features = ["cors", "trace", "compression-gzip"] }
sqlx = { version = "=0.8.6", default-features = false, features = ["runtime-tokio", "mysql", "chrono", "uuid", "rust_decimal", "migrate"] }
bb8-redis = "=0.26.0"
jsonwebtoken = "=9.3.1"
tracing = "=0.1.44"
tracing-subscriber = "=0.3.23"
dotenvy = "=0.15.7"
lettre = { version = "=0.11.23", default-features = false, features = ["builder", "smtp-transport", "tokio1-rustls-tls"] }
metrics-exporter-prometheus = { version = "=0.18.3", default-features = false }
