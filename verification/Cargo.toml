[package]
name = "fractal_viewer"
version = "0.1.0"
edition = "2021"
publish = false

[dependencies]
time = "=0.1.45"
glium = "=0.35.0"
imgui = "=0.12.0"
imgui-glium-renderer = "=0.13.0"
image = { version = "=0.25.10", default-features = false, features = ["png"] }
nalgebra = { version = "=0.35.0", default-features = false, features = ["std"] }
serde_json = "1"
