[package]
name = "khzeb"
version = "0.1.0"
edition = "2021"
publish = false

[dependencies]
bytemuck = { version = "=1.25.2", features = ["derive"] }
glam = "=0.29.3"
image = { version = "=0.25.10", default-features = false, features = ["png"] }
micromap = "=0.3.0"
pollster = "=0.4.0"
wasmtime = { version = "=42.0.2", default-features = false, features = ["cranelift", "runtime", "std", "wat"] }
wgpu = { version = "=24.0.5", default-features = false, features = ["wgsl"] }
winit = { version = "=0.29.15", default-features = false, features = ["rwh_06", "x11"] }
