[package]
name = "quad_render"
version = "0.1.0"
edition = "2021"
publish = false

[dependencies]
bytemuck = "*"
futures = "*"
nalgebra = "*"
wgpu = "*"
winit = "*"
