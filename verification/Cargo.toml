[package]
name = "plasma_simulation"
version = "0.1.0"
edition = "2021"
publish = false

[dependencies]
chrono = { version = "0.4", features = ["serde"] }
env_logger = "0.11"
log = "0.4"
ndarray = "0.16"
rhai = "1"
serde = { version = "1", features = ["derive"] }
serde_json = "1"
thiserror = "1"
