[package]
name = "vokselis"
version = "0.1.0"
edition = "2021"
publish = false

[dependencies]
naga = { version = "=0.8.5", features = ["wgsl-in", "spv-out", "validate", "span"] }
wgpu = { version = "=0.12.0", features = ["spirv"] }
winit = "=0.26.1"
notify = "=5.0.0-pre.15"
png = "=0.17.16"
chrono = "=0.4.45"
color-eyre = "=0.6.5"
crossbeam-channel = "=0.5.17"
env_logger = "=0.9.3"
pollster = "=0.2.5"
glam = { version = "=0.20.5", features = ["bytemuck"] }
bytemuck = { version = "=1.25.2", features = ["derive"] }
