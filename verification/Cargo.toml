[package]
name = "yui"
version = "0.1.0"
edition = "2021"
publish = false

[dependencies]
clap = { version = "4", features = ["derive"] }
glam = "0.24"
glow = "0.12"
glutin = "0.30"
glutin-winit = "0.3"
miette = { version = "5", features = ["fancy"] }
raw-window-handle = "0.5"
thiserror = "1"
tracing = "0.1"
tracing-subscriber = "0.3"
winit = "0.28"
