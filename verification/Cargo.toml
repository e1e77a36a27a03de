[package]
name = "defira"
version = "0.1.0"
edition = "2021"
publish = false

[dependencies]
env_logger = { version = "=0.11.11", default-features = false }
iced = { version = "=0.13.1", default-features = false, features = ["svg", "tiny-skia"] }
log = "=0.4.34"
