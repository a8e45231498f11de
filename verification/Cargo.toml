[package]
name = "dyngpu"
version = "0.1.0"
edition = "2021"
publish = false

[dependencies]
bytemuck = "1"
hashbrown = "0.15"
pollster = "0.4"
thiserror = "1"
wgpu = "24"
winit = "0.30"
