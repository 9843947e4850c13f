[package]
name = "nidvy_host"
version = "0.1.0"
edition = "2021"
publish = false

[dependencies]
anyhow = "=1.0.104"
serde = { version = "=1.0.229", features = ["derive"] }
serde_json = "=1.0.154"
winit = { version = "0.29", default-features = false }
wry = { version = "*", default-features = false }
