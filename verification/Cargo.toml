[package]
name = "kickforge"
version = "0.12.6"
edition = "2021"
publish = false

[dependencies]
crossbeam-channel = "0.5"
parking_lot = "0.12"
serde = { version = "1", features = ["derive"] }
serde_json = "1"
raw-window-handle = "0.6"
wry = "*"
gtk = "0.18"
dirs = "*"
