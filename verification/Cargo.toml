[package]
name = "kalgan_cache"
version = "0.1.0"
edition = "2021"
publish = false

[dependencies]
env_logger = "0.9"
log = "0.4"
redis = { version = "0.20", default-features = false }
