[package]
name = "cmsutil"
version = "0.1.0"
edition = "2021"
publish = false

[dependencies]
clap = { version = "=3.2.25", features = ["derive"] }
env_logger = "=0.10.2"
log = "=0.4.34"
memmap = "=0.7.0"
