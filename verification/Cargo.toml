[package]
name = "nrf_recover"
version = "0.1.0"
edition = "2021"
publish = false

[dependencies]
anyhow = "*"
colored = "*"
log = "*"
pretty_env_logger = "*"
probe-rs = "*"
structopt = "*"
