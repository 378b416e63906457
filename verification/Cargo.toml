[package]
name = "frogworks"
version = "0.1.0"
edition = "2021"
publish = false

[dependencies]
single-instance = "*"
tokio = { version = "*", features = ["full"] }
tray-item = "*"
