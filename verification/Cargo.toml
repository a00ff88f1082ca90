[package]
name = "shader_playground"
version = "0.1.0"
edition = "2021"
publish = false

[dependencies]
bytemuck = { version = "1", features = ["derive"] }
color-eyre = { version = "0.6", default-features = false }
dashmap = "5"
egui = "0.22"
egui-wgpu = "0.22"
egui-winit = { version = "0.22", default-features = false }
glam = { version = "0.24", features = ["bytemuck"] }
notify = "5"
notify-debouncer-mini = "0.2"
palette = "0.7"
pollster = { version = "0.3", features = ["macro"] }
wgpu = "0.16"
winit = "0.28"
