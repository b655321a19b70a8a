[package]
name = "simcue"
version = "0.1.0"
edition = "2021"
publish = false

[dependencies]
keyed_priority_queue = "0.4"
uuid = { version = "1", features = ["v4"] }
tokio = { version = "1", features = ["full"] }
hyper = { version = "0.14", features = ["full"] }
serde = { version = "1", features = ["derive"] }
serde_json = "1"
toml = "0.8"
log = "0.4"
simple_logger = "4"

[dev-dependencies]
tempdir = "0.3"
