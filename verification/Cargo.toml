[package]
name = "serde_any"
version = "0.1.0"
edition = "2021"
publish = false

[dependencies]
serde = "=1.0.229"
serde_json = "=1.0.151"
serde_yaml = "=0.8.26"
toml = "=0.5.11"
ron = "=0.8.1"
serde-xml-rs = "=0.6.0"
serde_urlencoded = "=0.7.1"

[dev-dependencies]
serde-value = "0.7"
