[package]
name = "smartctl_exporter"
version = "0.1.0"
edition = "2021"
publish = false

[dependencies]
clap = "2"
env_logger = "*"
hyper = "0.14"
log = "0.4"
prometheus_exporter_base = { version = "1", features = ["hyper_server"] }
regex = "1"
serde = { version = "1", features = ["derive"] }
serde_json = "1"
thiserror = "1"
tokio = { version = "1", features = ["macros", "rt"] }
