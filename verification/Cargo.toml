[package]
name = "up_core"
version = "0.1.0"
edition = "2021"
publish = false

[dependencies]
cloudevents-sdk = "0.7"

[dev-dependencies]
uuid = { version = "1", features = ["v4"] }
