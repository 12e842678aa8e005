[package]
name = "benchmarco"
version = "0.1.0"
edition = "2021"
publish = false

[dependencies]
futures = "0.3"
systemstat = "*"
wgpu = "0.12"
wgpu_glyph = "0.16"
winit = "0.26"
