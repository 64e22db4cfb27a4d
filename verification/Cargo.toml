[package]
name = "ratelite"
version = "0.1.0"
edition = "2021"
publish = false

[dependencies]
glow = "*"
winit = "*"
glutin = "*"
glutin-winit = "*"
raw-window-handle = "*"
fontdue = "*"

[dependencies.image]
version = "*"
default-features = false
features = ["png"]
