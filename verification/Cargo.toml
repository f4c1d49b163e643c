[package]
name = "portmap"
version = "0.1.0"
edition = "2021"
publish = false

[dependencies]
igd-next = "=0.18.0"
log = "=0.4.34"
pretty_env_logger = "=0.5.0"
serde = { version = "=1.0.229", features = ["derive"] }
serde_json = "=1.0.154"
