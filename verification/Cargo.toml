[package]
name = "renderer"
version = "0.1.0"
edition = "2021"
publish = false

[dependencies]
ash = "=0.38.0"
ash-window = "=0.13.0"
raw-window-handle = { version = "=0.6.2", features = ["std"] }
log = "=0.4.34"
