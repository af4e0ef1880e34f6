[package]
name = "renderer_core"
version = "0.1.0"
edition = "2021"
publish = false

[dependencies]
ash = "=0.38.0"
ash-window = "=0.13.0"
winit = "=0.30.13"
glam = { version = "=0.28.0", features = ["mint"] }
dolly = "=0.6.0"
