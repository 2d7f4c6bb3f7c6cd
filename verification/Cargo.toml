[package]
name = "handler_error"
version = "0.1.0"
edition = "2021"
publish = false

[dependencies]
anyhow = "=1.0.104"
axum = "=0.8.9"
serde = "=1.0.229"
shuttle-common = { version = "=0.57.0", features = ["models"] }
