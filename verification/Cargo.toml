[package]
name = "fuel_api"
version = "0.1.0"
edition = "2021"
publish = false

[dependencies]
argon2 = "0.5"
jsonwebtoken = "9"
rand = "0.8"
rand_core = "0.6"
serde = { version = "1", features = ["derive"] }
serde_json = "1"
axum = "0.7"
tokio = { version = "1", features = ["rt-multi-thread", "macros", "net"] }
chrono = "0.4"
