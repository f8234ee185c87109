[package]
name = "gpu_buffer_cache"
version = "0.1.0"
edition = "2021"
publish = false

[dependencies]
wgpu = { version = "=30.0.1", default-features = false, features = ["std", "noop"] }

[dev-dependencies]
pollster = "=1.0.1"
