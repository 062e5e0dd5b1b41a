[package]
name = "byd"
version = "0.1.0"
edition = "2021"
publish = false

[dependencies]
bytemuck = "1"
cgmath = "0.18"
futures = "0.3"
image = { version = "0.24", default-features = false, features = ["png", "jpeg"] }
log = "0.4"
rand = "0.8"
serde = { version = "1", features = ["derive"] }
serde_json = "1"
thiserror = "1"
wgpu = "0.12"
winit = "0.26"
