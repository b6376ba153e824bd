[package]
name = "sierra"
version = "0.1.0"
edition = "2021"
publish = false

[dependencies]
erupt = "*"
raw-window-handle = "0.3"
serde = { version = "1", features = ["derive"] }
thiserror = "1"
tracing = "0.1"
