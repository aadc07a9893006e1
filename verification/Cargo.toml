[package]
name = "voxel_cube"
version = "0.1.0"
edition = "2021"
publish = false

[dependencies]
pollster = "0.3"
wgpu = "23"
winit = "0.30"
