[package]
name = "serial_bridge"
version = "0.1.0"
edition = "2021"
publish = false

[dependencies]
serial = "=0.4.0"
log = "=0.4.34"
env_logger = "=0.11.11"
