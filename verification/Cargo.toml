[package]
name = "lifec_registry"
version = "0.1.0"
edition = "2021"
publish = false

[dependencies]
sha2 = "=0.10.9"
serde = { version = "=1.0.229", features = ["derive"] }
serde_json = "=1.0.154"
serde_urlencoded = "=0.7.1"
hyper = { version = "=0.14.32", features = ["full"] }
poem = "=1.3.59"
tokio = { version = "=1.54.1", features = ["full"] }
tracing = "=0.1.44"
