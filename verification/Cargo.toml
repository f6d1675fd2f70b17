[package]
name = "danube_connect_core"
version = "0.1.0"
edition = "2021"
publish = false

[dependencies]
serde_json = "1"
base64 = "0.22"
rand = "0.9"
metrics = "*"
metrics-exporter-prometheus = "*"
serde = { version = "1", features = ["derive"] }
danube-client = "*"
danube-core = "*"
tokio = { version = "1", features = ["full"] }
async-trait = "0.1"
tracing = "0.1"
tracing-subscriber = { version = "0.3", features = ["env-filter"] }
toml = "*"
thiserror = "*"
