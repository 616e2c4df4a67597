[package]
name = "helium_ui"
version = "0.1.0"
edition = "2021"
publish = false

[dependencies]
winit = "0.30"
wgpu = "*"
bytemuck = { version = "1", features = ["derive"] }
