[package]
name = "rustcraft"
version = "0.1.0"
edition = "2021"
publish = false

[dependencies]
bytes = "1"
dashmap = "5"
flate2 = "1"
flume = "0.11"
futures = "0.3"
inflate = "0.4"
log = "0.4"
noise = "0.7"
pretty_env_logger = "0.5"
rand = "0.8"
serde = { version = "1", features = ["derive"] }
serde_json = "1"
stopwatch = "0.0.7"
tokio = { version = "1", features = ["full"] }
tokio-util = { version = "0.7", features = ["codec"] }
toml = "0.5"
uuid = "1"
