[package]
name = "tank_monitor"
version = "0.1.0"
edition = "2021"
publish = false

[dependencies]
rppal = "*"
vcontrol = "*"
tokio = { version = "*", features = ["full"] }
