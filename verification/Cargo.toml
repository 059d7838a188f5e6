[package]
name = "mfa_service"
version = "0.1.0"
edition = "2021"
publish = false

[dependencies]
validator = { version = "=0.18.1", features = ["derive"] }
rand = "=0.8.8"
chrono = "=0.4.45"
jsonwebtoken = "=9.3.1"
serde = { version = "=1.0.229", features = ["derive"] }
serde_json = { version = "=1.0.154", features = ["preserve_order"] }
lettre = { version = "=0.11.23", default-features = false, features = ["smtp-transport", "builder", "hostname", "rustls-tls"] }
askama = "=0.12.1"
axum = "=0.7.9"
tokio = { version = "=1.54.1", features = ["full"] }
tower-http = { version = "=0.5.2", features = ["cors", "set-header"] }
tracing = "=0.1.44"
tracing-subscriber = { version = "=0.3.23", features = ["env-filter"] }
dotenvy = "=0.15.7"
deadpool-redis = "=0.18.0"
anyhow = "=1.0.104"
thiserror = "=1.0.69"
utoipa = { version = "=5.5.0", features = ["axum_extras"] }
utoipa-swagger-ui = { version = "=8.1.0", features = ["axum", "vendored"] }
zip = { version = "~2.2", default-features = false, features = ["deflate"] }
