[package]
name = "reddit_front"
version = "0.1.0"
edition = "2021"
publish = false

[dependencies]
axum = "=0.7.9"
axum-extra = { version = "=0.9.6", features = ["cookie"] }
cookie = "=0.18.2"
maud = { version = "=0.26.0", features = ["axum"] }
reqwest = { version = "=0.12.28", default-features = false, features = ["json", "rustls-tls"] }
serde = { version = "=1.0.229", features = ["derive"] }
serde_json = "=1.0.154"
shuttle-axum = "=0.44.0"
shuttle-runtime = "=0.44.0"
shuttle-secrets = "=0.42.0"
tokio = { version = "=1.54.1", features = ["sync"] }
tower-http = { version = "=0.5.2", features = ["fs"] }
tracing = "=0.1.44"
