[package]
name = "ray_tracer"
version = "0.1.0"
edition = "2021"
publish = false

[dependencies]
rand = "0.8"
image = { version = "0.24", default-features = false, features = ["jpeg", "png", "pnm"] }
winit = "0.28"
env_logger = "0.10"
