[package]
name = "fs_ai"
version = "0.1.0"
edition = "2021"
publish = false

[dependencies]
chrono = { version = "=0.4.45", default-features = false, features = ["clock", "std"] }
serde = { version = "=1.0.229", features = ["derive"] }
serde_json = "=1.0.154"
toml = "=0.8.23"
tracing = "=0.1.44"
axum = "=0.7.9"
utoipa = "=4.2.3"
reqwest = { version = "=0.12.28", default-features = false, features = ["blocking", "json"] }
