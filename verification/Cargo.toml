[package]
name = "finalengine"
version = "0.1.0"
edition = "2021"
publish = false

[dependencies]
uuid = { version = "=1.29.0", features = ["v4", "serde"] }
base64 = "=0.22.1"
image = { version = "=0.25.10", default-features = false, features = ["png", "jpeg"] }
shipyard = "=0.7.8"
serde = { version = "=1.0.229", features = ["derive"] }
serde_json = "=1.0.154"
ron = "=0.8.1"
thiserror = "=2.0.21"
tracing = "=0.1.44"
tracing-subscriber = { version = "=0.3.23", features = ["env-filter"] }
ash = "=0.38.0"
ash-window = "0.13"
raw-window-handle = "0.6"
winit = "0.30"
