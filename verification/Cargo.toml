[package]
name = "rwui"
version = "0.1.0"
edition = "2021"
publish = false

[dependencies]
cgmath = "0.18"
chrono = "0.4"
glium = "0.36"
winit = "0.30"
