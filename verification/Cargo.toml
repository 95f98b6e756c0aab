[package]
name = "swagger_scan"
version = "0.1.0"
edition = "2021"
publish = false

[dependencies]
clap = "3"
colored = "*"
env_logger = "*"
log = "*"
reqwest = { version = "*", default-features = false, features = ["rustls-tls"] }
tokio = { version = "*", features = ["full"] }
