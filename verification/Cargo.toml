[package]
name = "databend_core"
version = "0.1.0"
edition = "2021"
publish = false

[dependencies]
parquet = { version = "46", default-features = false, features = ["arrow"] }
ethnum = "1.3"
metrics = "0.20"
metrics-exporter-prometheus = { version = "0.11", default-features = false }
prometheus-client = "0.21"
parking_lot = "0.12"
async-trait = "0.1"
async-backtrace = "0.2"
tokio = { version = "1", features = ["sync"] }
