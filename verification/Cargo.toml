[package]
name = "mqtt_publish"
version = "0.1.0"
edition = "2021"
publish = false

[dependencies]
bytes = "=1.12.1"
bytestring = "=1.5.1"
mio = { version = "0.7", features = ["os-poll", "net"] }
ntex = { version = "=0.3.18", default-features = false }
serde = "=1.0.229"
serde_json = "=1.0.154"
