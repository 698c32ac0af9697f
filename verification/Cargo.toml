[package]
name = "zap"
version = "0.1.0"
edition = "2021"
publish = false

[dependencies]
hashbrown = "*"
actix = "*"
actix-web = { version = "*", default-features = false, features = ["macros"] }
env_logger = "*"
