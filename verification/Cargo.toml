[package]
name = "bomberjack"
version = "0.1.0"
edition = "2021"
publish = false

[dependencies]
bytemuck = { version = "1", features = ["derive"] }
cgmath = "0.18"
image = { version = "0.24", default-features = false, features = ["png"] }
pollster = "0.2"
wgpu = "0.14"
wgpu_glyph = "0.18"
winit = "0.27"
