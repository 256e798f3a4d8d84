[package]
name = "botcore"
version = "0.1.0"
edition = "2021"
publish = false

[dependencies]
actix-web = "4"
actix-rt = "2"
tokio = { version = "1", features = ["rt", "macros"] }
serenity = "0.11"
log = "0.4"
env_logger = "0.10"
lazy_static = "1"
