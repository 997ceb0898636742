[package]
name = "test_collector"
version = "0.1.0"
edition = "2021"
publish = false

[dependencies]
chrono = "0.4"
log = "0.4"
env_logger = "0.10"
once_cell = "1"
inventory = "0.3"
futures = "0.3"
proc-macro2 = "1"
quote = "1"
syn = { version = "1", features = ["full"] }
rand = "0.8"
