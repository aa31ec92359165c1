[package]
name = "sensor_pipeline"
version = "0.1.0"
edition = "2021"
publish = false

[dependencies]
rand = "0.9"
tokio = { version = "1", features = ["full"] }
lapin = { version = "2", default-features = false }
serde = { version = "1", features = ["derive"] }
serde_json = "1"
csv = "1"
statrs = { version = "*", default-features = false }
futures-util = "0.3"
