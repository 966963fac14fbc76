[package]
name = "ubuntu_resource_api"
version = "0.1.0"
edition = "2021"
publish = false

[dependencies]
actix-web = "4"
bollard = "0.16"
chrono = "0.4"
env_logger = "0.11"
futures-util = "0.3"
log = "0.4"
serde = { version = "1", features = ["derive"] }
serde_json = "1"
sysinfo = "0.30"
