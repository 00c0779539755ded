[package]
name = "reqwest-eventsource"
version = "0.1.0"
edition = "2021"
publish = false

[dependencies]
eventsource-stream = "=0.2.3"
futures-core = "=0.3.34"
futures-timer = "=3.0.4"
http = "=1.5.0"
mime = "=0.3.17"
pin-project-lite = "=0.2.17"
reqwest = { version = "=0.12.28", default-features = false, features = ["stream"] }
reqwest-middleware = "=0.4.2"

[dev-dependencies]
tokio = { version = "=1.54.1", features = ["io-util", "net", "rt", "time"] }
