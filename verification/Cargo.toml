[package]
name = "digital_dash"
version = "0.1.0"
edition = "2021"
publish = false

[dependencies]
anyhow = "1"
clap = { version = "4", features = ["derive"] }
env_logger = "0.11"
log = "0.4"
libm = "0.2"
serialport = { version = "4", default-features = false }
