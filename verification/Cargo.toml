[package]
name = "rfb"
version = "0.1.0"
edition = "2021"
publish = false

[dependencies]
byteorder = "1"
tokio = { version = "1", features = ["full"] }
env_logger = "0.11"
