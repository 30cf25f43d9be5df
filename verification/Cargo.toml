[package]
name = "broom"
version = "0.1.0"
edition = "2021"
publish = false

[dependencies]
libc = "*"
tokio = { version = "1", features = ["full"] }
futures = "*"
log = "*"
env_logger = "*"
dotenv = "*"
failure = "*"
