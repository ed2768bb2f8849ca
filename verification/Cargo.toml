[package]
name = "staking_engine"
version = "0.1.0"
edition = "2021"
publish = false

[dependencies]
crc32fast = "1"
bytes = "1"
tokio-util = { version = "0.7", default-features = false, features = ["codec"] }
