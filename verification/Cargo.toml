[package]
name = "llm_serving"
version = "0.1.0"
edition = "2021"
publish = false

[dependencies]
sha2 = "=0.10.9"
base64 = "=0.22.1"
uuid = { version = "=1.27.0", features = ["v4"] }
moka = { version = "=0.12.16", features = ["sync"] }
governor = "=0.10.4"
axum = "=0.7.9"
tokio = { version = "=1.53.2", features = ["rt-multi-thread", "macros", "sync", "net", "time"] }
tokio-stream = "=0.1.19"
serde = { version = "=1.0.229", features = ["derive"] }
serde_json = "=1.0.151"
futures = "=0.3.34"
async-trait = "=0.1.92"
rand = "=0.8.8"
metrics = "=0.24.6"
metrics-exporter-prometheus = "=0.18.3"
memmap2 = "0.9"
