[package]
name = "xhype"
version = "0.1.0"
edition = "2021"
publish = false

[dependencies]
chrono = "*"
rand = "*"
crossbeam-channel = "*"
log = "*"
env_logger = "*"
