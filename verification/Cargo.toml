[package]
name = "mothra"
version = "0.1.0"
edition = "2021"
publish = false

[dependencies]
bytemuck = "=1.25.2"
env_logger = "=0.10.2"
futures = "=0.3.34"
image = "=0.24.9"
log = "=0.4.34"
pollster = "=0.3.0"
wgpu = "=0.16.3"
winit = "=0.28.7"
