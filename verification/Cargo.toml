[package]
name = "mihomo_api"
version = "0.1.0"
edition = "2021"
publish = false

[dependencies]
async-trait = "=0.1.92"
http-body-util = "=0.1.5"
hyper = { version = "=1.12.0", features = ["client", "http1"] }
hyper-util = { version = "=0.1.21", features = ["client-legacy", "http1", "tokio"] }
hyperlocal = "=0.9.1"
serde_json = "=1.0.154"
tokio = { version = "=1.54.1", features = ["sync"] }

[dev-dependencies]
tokio = { version = "=1.54.1", features = ["net", "rt", "sync", "time"] }
