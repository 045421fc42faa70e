[package]
name = "app_core"
version = "0.1.0"
edition = "2021"
publish = false

[dependencies]
anyhow = "1"
bytemuck = { version = "1", features = ["derive"] }
egui = "0.32"
egui_glow = "0.32"
egui-winit = "0.32"
env_logger = "0.11"
gl = "0.14"
glow = "0.16"
glutin = "0.32"
glutin-winit = "0.5"
log = "0.4"
nalgebra-glm = "0.19"
raw-window-handle = "0.6"
winit = "0.30"
