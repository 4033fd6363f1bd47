[package]
name = "rust_game_engine"
version = "0.1.0"
edition = "2021"
publish = false

[dependencies]
bytemuck = { version = "1", features = ["derive"] }
cgmath = "0.18"
env_logger = "0.11"
image = { version = "0.25", default-features = false, features = ["png", "jpeg"] }
pollster = "0.4"
wgpu = "27"
winit = "0.30"
