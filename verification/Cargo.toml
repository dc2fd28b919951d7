[package]
name = "netpulsar"
version = "0.1.0"
edition = "2021"
publish = false

[dependencies]
xenet = { version = "=0.5.0", features = ["serde"] }
default-net = "=0.22.0"
crossbeam-channel = "=0.5.17"
tokio = { version = "=1.54.1", features = ["sync"] }
serde = { version = "=1.0.229", features = ["derive"] }
