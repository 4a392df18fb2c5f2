[package]
name = "gain_bridge"
version = "0.1.0"
edition = "2021"
publish = false

[dependencies]
vst = "*"
serde = { version = "*", features = ["derive"] }
log = "*"
simplelog = "*"
log-panics = "*"
dirs = "*"
raw-window-handle = "0.3"
