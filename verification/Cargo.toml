[package]
name = "wgpu_surface"
version = "0.1.0"
edition = "2021"
publish = false

[dependencies]
wgpu = "=25.0.2"
skia-safe = { version = "=0.153.3", features = ["vulkan", "ganesh"] }
ash = "=0.38.0"
raw-window-handle = "=0.6.2"
pollster = "=1.0.1"
