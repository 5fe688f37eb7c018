[package]
name = "frame_studio"
version = "0.1.0"
edition = "2021"
publish = false

[dependencies]
taffy = "*"
winit = "*"
objc2 = "*"
objc2-foundation = "*"
objc2-core-foundation = "*"
objc2-metal = "*"
skia-safe = "*"
syphon = "*"
