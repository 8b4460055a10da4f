[package]
name = "relentless"
version = "0.1.0"
edition = "2021"
publish = false

[dependencies]
embassy-time = { version = "0.4", features = ["std"] }
futures-timer = "3"
gloo-timers = { version = "0.3", features = ["futures"] }
pin-project-lite = "0.2"
serde = { version = "1", features = ["derive"] }
tokio = { version = "1", features = ["rt", "time"] }
tokio-util = "0.7"
