[package]
name = "cunzhi-cli"
version = "0.2.12"
edition = "2021"
publish = false

[dependencies]
anyhow = "1"
atty = "0.2"
chrono = { version = "0.4", features = ["serde"] }
clap = { version = "4", features = ["derive"] }
console = "*"
dirs = "*"
env_logger = "*"
http-body-util = "0.1"
hyper = { version = "1", features = ["server", "http1"] }
indicatif = "*"
inquire = "*"
log = "0.4"
serde = { version = "1", features = ["derive"] }
serde_json = "1"
thiserror = "*"
tokio = { version = "1", features = ["full"] }
uuid = { version = "1", features = ["v4"] }
