[package]
name = "example_indexer"
version = "0.1.0"
edition = "2021"
publish = false

[dependencies]
anyhow = "1"
thiserror = "1"
hex = "0.4"
serde = { version = "1", features = ["derive"] }
serde_json = "1"
serde_yaml = "0.9"
schemars = "0.8"
log = "0.4"
once_cell = "1"
futures = "0.3"
tokio = { version = "1", features = ["full"] }
axum = "0.6"
aide = { version = "0.11", features = ["axum", "redoc"] }
axum-prometheus = "0.4"
tower = "0.4"
tower-http = { version = "0.4", features = ["cors"] }
sqlx = { version = "0.7", default-features = false, features = ["runtime-tokio", "postgres"] }
config = { version = "0.13", default-features = false, features = ["toml"] }
stackdriver_logger = "0.8"
url = "2"
