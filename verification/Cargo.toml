[package]
name = "shrink"
version = "0.1.0"
edition = "2021"
publish = false

[dependencies]
url = "2"
rand = "0.9"
serde = { version = "1", features = ["derive"] }
tokio = { version = "1", features = ["full"] }
axum = "0.8"
r2d2 = "0.8"
r2d2_sqlite = { version = "*", features = ["bundled"] }
r2d2_postgres = "*"
redis = { version = "*", features = ["r2d2"] }
