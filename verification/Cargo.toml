[package]
name = "viewer_core"
version = "0.1.0"
edition = "2021"
publish = false

[dependencies]
ash = "*"
gltf = { version = "*", default-features = false }
log = "*"
winit = "*"
