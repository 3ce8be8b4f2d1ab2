[package]
name = "blog_backend"
version = "0.1.0"
edition = "2021"
publish = false

[dependencies]
actix-web = "4"
argon2 = { version = "=0.5.3", features = ["std"] }
env_logger = "0.11"
serde = { version = "1", features = ["derive"] }
validator = { version = "0.16", features = ["derive"] }
