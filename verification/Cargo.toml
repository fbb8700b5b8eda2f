[package]
name = "renoir"
version = "0.1.0"
edition = "2021"
publish = false

[dependencies]
winit = "0.30"
wgpu = "0.20"
nalgebra = { version = "0.33", features = ["bytemuck"] }
bytemuck = { version = "1", features = ["derive"] }
pollster = "0.3"
hecs = "0.10"
env_logger = "0.11"
