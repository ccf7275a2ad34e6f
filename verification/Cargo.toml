[package]
name = "lores_app_node"
version = "0.1.0"
edition = "2021"
publish = false

[dependencies]
sha2 = "=0.10.9"
uuid = { version = "=1.29.0", features = ["v4"] }
serde = { version = "=1.0.229", features = ["derive"] }
serde_json = "=1.0.154"
tokio = { version = "=1.54.1", features = ["full"] }
futures = "=0.3.34"
tracing = "=0.1.44"
tracing-subscriber = "=0.3.23"
sqlx = { version = "=0.8.6", default-features = false, features = ["runtime-tokio", "sqlite"] }
axum = { version = "=0.8.9", features = ["ws"] }
utoipa = { version = "=5.5.0", features = ["axum_extras"] }
utoipa-axum = "=0.2.0"
utoipa-swagger-ui = { version = "=9.0.2", features = ["axum"] }
tonic = "=0.14.9"
