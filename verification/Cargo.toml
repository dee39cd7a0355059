[package]
name = "async_bzip"
version = "0.1.0"
edition = "2021"
publish = false

[dependencies]
bzip2 = "*"
futures = "0.1"
tokio-core = "0.1"
tokio-timer = "0.1"
log = "*"
env_logger = "*"
