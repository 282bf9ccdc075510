[package]
name = "paranoia_sysinfo"
version = "0.1.0"
edition = "2021"
publish = false

[dependencies]
anyhow = "*"
dotenv = "*"
env_logger = "*"
futures-util = "*"
log = "*"
sysinfo = "*"
tokio = { version = "*", features = ["full"] }
tokio-tungstenite = "*"
