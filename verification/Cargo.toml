[package]
name = "whatssock_server"
version = "0.1.0"
edition = "2021"
publish = false

[dependencies]
anyhow = "1"
axum = "0.8"
chrono = { version = "0.4", default-features = false, features = ["std"] }
diesel = { version = "2", default-features = false, features = ["postgres", "r2d2", "chrono"] }
dotenvy = "0.15"
env_logger = "0.11"
log = "0.4"
r2d2 = "0.8"
rand = "0.9"
serde = { version = "1", features = ["derive"] }
tokio = { version = "1", features = ["full"] }
