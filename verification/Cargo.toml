[package]
name = "time_converter"
version = "0.1.0"
edition = "2021"
publish = false

[dependencies]
regex = "1"
fancy-regex = "*"
chrono = "0.4"
chrono-tz = "*"
serenity = "0.10"
tokio = { version = "1", features = ["macros", "rt-multi-thread", "sync"] }
log = "0.4"
env_logger = "*"
thiserror = "1"
