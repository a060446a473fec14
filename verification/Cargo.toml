[package]
name = "lyzah"
version = "0.1.0"
edition = "2021"
publish = false

[dependencies]
image = { version = "0.24", default-features = false, features = ["png"] }
wgpu = "0.12"
winit = "0.26"
pollster = "0.2"
bytemuck = { version = "1", features = ["derive"] }
crossbeam = "0.8"
