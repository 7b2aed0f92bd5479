[package]
name = "wgpu_triangle"
version = "0.1.0"
edition = "2021"
publish = false

[dependencies]
bytemuck = "*"
env_logger = "*"
glam = { version = "*", features = ["bytemuck"] }
pollster = "*"
wgpu = "*"
winit = "*"
