[package]
name = "pixel_world"
version = "0.1.0"
edition = "2021"
publish = false

[dependencies]
bytemuck = "1"
image = { version = "0.24", default-features = false, features = ["png"] }
winit = { version = "0.28", default-features = false, features = ["x11"] }
