[package]
name = "rieproxy"
version = "0.1.0"
edition = "2021"
publish = false

[dependencies]
anyhow = "1"
base64 = "0.13"
bytes = "1"
env_logger = "0.9"
futures = "0.3"
hyper = { version = "0.14", features = ["full"] }
listenfd = "1"
log = "0.4"
reqwest = { version = "0.11", default-features = false, features = ["json"] }
serde = { version = "1", features = ["derive"] }
serde_json = "1"
structopt = "0.3"
tokio = { version = "1", features = ["full"] }
url = "2"
