[package]
name = "manager_handlers"
version = "0.7.1"
edition = "2021"
publish = false

[dependencies]
serde_json = "1"
uuid = { version = "1", features = ["v4"] }
x509-parser = "*"
actix-web = { version = "4", features = ["rustls-0_23"] }
tokio = { version = "1", features = ["full"] }
redis = { version = "*", features = ["tokio-comp"] }
rustls = "0.23"
rustls-pemfile = "2"
futures = "0.3"
futures-util = "0.3"
async-trait = "0.1"
async-stream = "0.3"
bytes = "1"
tokio-stream = "0.1"
env_logger = "*"
lazy_static = "1"
serde = { version = "1", features = ["derive"] }
