[package]
name = "agentbox"
version = "0.1.0"
edition = "2021"
publish = false

[dependencies]
cgmath = "=0.18.0"
bytemuck = "=1.25.2"
winit = "=0.27.5"
wgpu = { version = "=0.13.1", features = ["spirv"] }
async-std = "=1.13.2"
anyhow = "=1.0.104"
log = "=0.4.34"
fastrand = "=2.5.0"
getset = "=0.1.7"
