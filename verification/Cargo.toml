[package]
name = "simdriver"
version = "0.1.0"
edition = "2021"
publish = false

[dependencies]
log = "*"
serde_json = "*"
signal-hook = "*"
simple_logger = "*"
structopt = "*"
