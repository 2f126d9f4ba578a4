[package]
name = "pih_pah"
version = "0.1.0"
edition = "2021"
publish = false

[dependencies]
serde = { version = "=1.0.229", features = ["derive"] }
serde_json = "1"
ureq = { version = "=2.12.1", default-features = false }
env_logger = "=0.10.2"
