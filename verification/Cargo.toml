[package]
name = "render_core"
version = "0.1.0"
edition = "2021"
publish = false

[dependencies]
bytemuck = { version = "=1.25.2", features = ["derive"] }
cgmath = "=0.18.0"
wgpu = { version = "=0.19.4", default-features = false, features = ["wgsl"] }
egui = { version = "=0.26.2", default-features = false }
egui-wgpu = { version = "0.26", default-features = false }
pollster = "=0.3.0"
env_logger = { version = "=0.10.2", default-features = false }
