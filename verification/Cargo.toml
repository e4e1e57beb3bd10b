[package]
name = "budget_tracker"
version = "0.1.0"
edition = "2021"
publish = false

[dependencies]
axum = "*"
serde = { version = "*", features = ["derive"] }
tokio = { version = "*", features = ["full"] }
tracing-subscriber = "*"
