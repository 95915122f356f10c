[package]
name = "bouncing_cube"
version = "0.1.0"
edition = "2021"
publish = false

[dependencies]
rand = "0.8"
wgpu = "0.12"
winit = "0.26"
pollster = "0.2"
env_logger = "0.9"
bytemuck = { version = "1", features = ["derive"] }
