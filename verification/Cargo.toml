[package]
name = "chatapp"
version = "0.1.0"
edition = "2021"
publish = false

[dependencies]
anyhow = "=1.0.104"
arc-swap = "=1.9.3"
tauri = { version = "2", default-features = false, features = ["wry", "tray-icon"] }
tracing = { version = "=0.1.44", features = ["log"] }
