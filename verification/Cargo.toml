[package]
name = "device_session"
version = "0.1.0"
edition = "2021"
publish = false

[dependencies]
maa-framework = { version = "=1.27.0", features = ["dynamic"] }
tokio = { version = "=1.54.1", features = ["sync"] }
