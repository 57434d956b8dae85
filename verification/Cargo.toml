[package]
name = "game_of_life"
version = "0.1.0"
edition = "2021"
publish = false

[dependencies]
bytemuck = { version = "1", features = ["derive"] }
egui = "0.22"
egui-wgpu = "0.22"
egui-winit = { version = "0.22", default-features = false }
log = "0.4"
pollster = "0.3"
simple_logger = { version = "4", default-features = false }
wgpu = "0.16"
winit = "0.28"
