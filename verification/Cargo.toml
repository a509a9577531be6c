[package]
name = "studigo"
version = "0.1.0"
edition = "2021"
publish = false

[dependencies]
image = { version = "=0.25.10", default-features = false, features = ["png"] }
serde = { version = "=1.0.229", features = ["derive"] }
serde_json = "=1.0.154"
thiserror = "=1.0.69"
anyhow = "=1.0.104"
log = "=0.4.35"
env_logger = "=0.11.11"
once_cell = "=1.21.4"
base64 = "=0.22.1"
tempfile = "=3.27.0"
reqwest = { version = "=0.12.28", default-features = false, features = ["blocking", "json"] }
rusb = "=0.9.4"
nokhwa = { version = "=0.10.11", default-features = false }
