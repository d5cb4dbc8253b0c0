[package]
name = "host_metrics"
version = "0.1.0"
edition = "2021"
publish = false

[dependencies]
glob = "=0.3.4"
chrono = "=0.4.45"
tokio = { version = "=1.53.2", features = ["rt", "time", "macros", "signal", "sync"] }
tokio-stream = "=0.1.19"
futures = "=0.3.34"
serde = { version = "=1.0.229", features = ["derive"] }
