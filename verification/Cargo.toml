[package]
name = "graphics"
version = "0.1.0"
edition = "2021"
publish = false

[dependencies]
wgpu = "0.12"
pollster = "0.2"
winit = "0.26"
serde = { version = "1", features = ["derive"] }
env_logger = "0.9"
anyhow = "1"
