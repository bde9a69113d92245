[package]
name = "dirprune"
version = "0.1.0"
edition = "2021"
publish = false

[dependencies]
notify = "*"
anyhow = "*"
env_logger = "*"
log = "*"
