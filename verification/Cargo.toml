[package]
name = "temperature_detector"
version = "0.1.0"
edition = "2021"
publish = false

[dependencies]
actix-web = "*"
chrono = { version = "*", features = ["serde"] }
env_logger = "*"
log = "*"
rand = "*"
serde = { version = "*", features = ["derive"] }
