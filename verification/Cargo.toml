[package]
name = "password_generator"
version = "0.1.0"
edition = "2021"
publish = false

[dependencies]
anyhow = "1"
clap = "4"
env_logger = "0.11"
log = "0.4"
rand = "0.8"
