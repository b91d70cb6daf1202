[package]
name = "sensor_relay"
version = "0.1.0"
edition = "2021"
publish = false

[dependencies]
anyhow = "=1.0.104"
dht11 = "=0.3.1"
influxdb-client = "=0.1.4"
paho-mqtt = "=0.14.0"
rppal = { version = "=0.22.1", features = ["hal", "hal-unproven"] }
serde = { version = "=1.0.229", features = ["derive"] }
serde_json = "=1.0.154"
structopt = "=0.3.26"
tokio = { version = "=1.54.1", features = ["rt", "macros"] }
