[package]
name = "portfolio_auth"
version = "0.1.0"
edition = "2021"
publish = false

[dependencies]
jsonwebtoken = { version = "=11.1.0", features = ["rust_crypto"] }
serde_json = "=1.0.151"
serde = { version = "*", features = ["derive"] }
axum = "=0.8.9"
tokio = { version = "*", features = ["macros", "rt-multi-thread", "net"] }
tower-http = { version = "=0.6.11", features = ["auth", "timeout"] }
reqwest = { version = "0.12", default-features = false, features = ["rustls-tls"] }
