[package]
name = "crossover"
version = "0.1.0"
edition = "2021"
publish = false

[dependencies]
env_logger = "=0.11.11"
global-hotkey = "*"
log = "=0.4.34"
parking_lot = "=0.12.5"
rdev = "=0.5.3"
serde = { version = "=1.0.229", features = ["derive"] }
serde_json = "=1.0.154"
