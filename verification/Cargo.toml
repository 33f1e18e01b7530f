[package]
name = "line_sdf"
version = "0.1.0"
edition = "2021"
publish = false

[dependencies]
bytemuck = { version = "1", features = ["derive"] }
pollster = "0.3"
wgpu = "0.15"
winit = "0.28"
