[package]
name = "yingzi"
version = "0.1.0"
edition = "2021"
publish = false

[dependencies]
anyhow = "*"
clap = { version = "*", features = ["derive"] }
env_logger = "*"
log = "*"
rustls = "*"
rustls-pemfile = "*"
tokio = { version = "*", features = ["full"] }
tokio-rustls = "*"
tokio-stream = { version = "*", features = ["net"] }
