[package]
name = "http_routes"
version = "0.1.0"
edition = "2021"
publish = false

[dependencies]
actix-web = "4"
derive_more = "0.99"
env_logger = "0.11"
log = "0.4"
serde = { version = "1", features = ["derive"] }
serde_json = "1"
