[package]
name = "container_broker"
version = "0.1.0"
edition = "2021"
publish = false

[dependencies]
flate2 = "1"
tar = "0.4"
uuid = { version = "1", features = ["v4"] }
bollard = "*"
tokio = { version = "1", features = ["rt-multi-thread", "macros"] }
futures-util = "0.3"
