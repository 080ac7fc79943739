[package]
name = "chessno"
version = "0.1.0"
edition = "2021"
publish = false

[dependencies]
uuid = { version = "1", features = ["v4"] }
smallvec = "1"
log = "0.4"
env_logger = "0.11"
