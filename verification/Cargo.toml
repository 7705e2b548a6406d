[package]
name = "gpu_interop"
version = "0.1.0"
edition = "2021"
publish = false

[dependencies]
wgpu = "24"
ash = "0.38"
oidn = "*"
