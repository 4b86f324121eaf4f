[package]
name = "rosrust_async"
version = "0.1.0"
edition = "2021"
publish = false

[dependencies]
rosrust = "0.9"
tokio = { version = "1", features = ["rt", "rt-multi-thread", "sync", "time"] }
