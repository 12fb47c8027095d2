[package]
name = "browser_proxy"
version = "0.1.0"
edition = "2021"
publish = false

[dependencies]
actix-web = { version = "=4.18.1", default-features = false, features = ["cookies", "macros"] }
base64 = "=0.22.1"
env_logger = "=0.11.11"
headless_chrome = "=1.0.22"
log = "=0.4.34"
serde = { version = "=1.0.229", features = ["derive"] }
serde_json = "=1.0.154"
tokio = { version = "=1.54.1", features = ["sync"] }
