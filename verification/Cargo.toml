[package]
name = "gpu_raymarcher"
version = "0.1.0"
edition = "2021"
publish = false

[dependencies]
bytemuck = { version = "=1.25.2", features = ["derive"] }
encase = { version = "=0.5.0", features = ["glam"] }
glam = "=0.23.0"
wgpu = "=0.15.1"
winit = "=0.28.7"
