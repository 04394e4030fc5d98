[package]
name = "plugin_serial"
version = "0.1.0"
edition = "2021"
publish = false

[dependencies]
rusb = "0.9"
serde = { version = "1", features = ["derive"] }
serialport = { version = "4", default-features = false }
tokio = { version = "1", features = ["sync", "time"] }
ts-rs = "*"
