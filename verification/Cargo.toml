[package]
name = "sensor_monitor"
version = "0.1.0"
edition = "2021"
publish = false

[dependencies]
anyhow = "1"
chrono = "0.4"
gethostname = "*"
metrics-exporter-prometheus = "*"
reqwest = { version = "*", default-features = false, features = ["blocking", "json"] }
rumqttc = { version = "*", default-features = false }
serde = { version = "1", features = ["derive"] }
serde_json = "1"
structopt = "0.3"
toml = "*"
tracing = "0.1"
tracing-subscriber = { version = "0.3", features = ["json"] }
