[package]
name = "vxrt"
version = "0.1.0"
edition = "2021"
publish = false

[dependencies]
anyhow = "1"
bytemuck = { version = "1", features = ["derive"] }
cgmath = "=0.18.0"
env_logger = "=0.10.2"
image = "=0.24.9"
log = "0.4"
wgpu = "=0.17.2"
winit = "=0.28.7"
