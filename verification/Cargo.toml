[package]
name = "kafka_test"
version = "0.1.0"
edition = "2021"
publish = false

[dependencies]
anyhow = "1"
async-std = "1"
clap = { version = "4", features = ["derive"] }
futures = "0.3"
humantime = "2"
log = "0.4"
once_cell = "1"
pretty_env_logger = "0.5"
rdkafka = { version = "*", default-features = false }
