[package]
name = "pianke"
version = "0.1.0"
edition = "2021"
publish = false

[dependencies]
url = "2"
serde = { version = "1", features = ["derive"] }
serde_json = "1"
anyhow = "1"
log = "0.4"
env_logger = "0.11"
sysinfo = { version = "0.33", default-features = false, features = ["system", "disk"] }
