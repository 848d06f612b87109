[package]
name = "egui_backend"
version = "0.1.0"
edition = "2021"
publish = false

[dependencies]
cli-clipboard = "0.4"
egui = "=0.22.0"
gl = "=0.14.0"
glfw = "=0.49.1"
