[package]
name = "window_demo"
version = "0.1.0"
edition = "2021"
publish = false

[dependencies]
cocoa = "0.25"
metal = "0.27"
objc = "0.2"
winit = "0.28"
