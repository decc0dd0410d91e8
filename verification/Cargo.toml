[package]
name = "mqtt_monitor"
version = "0.1.0"
edition = "2021"
publish = false

[dependencies]
anyhow = "1"
clap = { version = "4", features = ["derive"] }
clap-verbosity-flag = "*"
env_logger = "*"
log = "0.4"
pushover = "*"
rumqttc = "*"
serde = { version = "1", features = ["derive"] }
serde-inline-default = "*"
serde_json = "1"
tokio = { version = "1", features = ["macros", "rt", "time"] }
toml = "*"
