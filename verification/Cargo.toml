[package]
name = "game_engine"
version = "0.1.0"
edition = "2021"
publish = false

[dependencies]
wgpu = "24"
winit = { version = "0.29", default-features = false, features = ["rwh_06", "x11"] }
pollster = "*"
log = "*"
env_logger = "*"
