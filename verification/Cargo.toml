[package]
name = "lyon_renderer"
version = "0.1.0"
edition = "2021"
publish = false

[dependencies]
bytemuck = { version = "1", features = ["derive"] }
lyon_tessellation = "1"
wgpu = { version = "22", default-features = false, features = ["wgsl"] }
