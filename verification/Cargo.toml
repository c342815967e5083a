[package]
name = "raytracer"
version = "0.1.0"
edition = "2021"
publish = false

[dependencies]
ash = "0.38"
ash-window = "0.13"
bytemuck = { version = "1", features = ["derive"] }
env_logger = "0.11"
glam = "0.29"
log = "0.4"
raw-window-handle = "0.6"
shaderc = "0.8"
winit = "0.29"
