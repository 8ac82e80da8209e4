[package]
name = "prose_pod_server"
version = "0.1.0"
edition = "2021"
publish = false

[dependencies]
sha2 = "=0.10.9"
hex = "=0.4.3"
base64 = "=0.22.1"
serde = { version = "=1.0.229", features = ["derive"] }
serde_json = "=1.0.154"
figment = { version = "=0.10.19", features = ["toml", "env"] }
toml = "=0.8.23"
http = "1"
