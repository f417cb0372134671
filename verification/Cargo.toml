[package]
name = "kwon"
version = "0.1.0"
edition = "2021"
publish = false

[dependencies]
anyhow = "1"
camino = "1"
chrono = { version = "0.4", features = ["serde"] }
clap = { version = "4", features = ["derive"] }
colored = "*"
env_logger = "0.11"
ftail = "*"
futures = "0.3"
log = "0.4"
serde = { version = "1", features = ["derive"] }
serde_json = "1"
syslog = "*"
tokio = { version = "1", features = ["full"] }
toml = "*"
whoami = "*"
