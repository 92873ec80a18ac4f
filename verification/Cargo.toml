[package]
name = "therminal_window"
version = "0.1.0"
edition = "2021"
publish = false

[dependencies]
alacritty_terminal = "0.25"
bytemuck = "1"
glyphon = "*"
open = "5"
tokio = { version = "1", features = ["rt", "time"] }
tracing = "0.1"
wgpu = "*"
winit = "0.30"
