[package]
name = "oceanman"
version = "0.1.0"
edition = "2021"
publish = false

[dependencies]
bytemuck = "1"
clap = { version = "4", features = ["derive"] }
ddsfile = "0.5"
egui = "0.23"
egui-wgpu = "0.23"
egui-winit = { version = "0.23", default-features = false }
env_logger = { version = "0.10", default-features = false }
glam = "0.24"
gltf = "1"
half = "2"
mikktspace = "0.3"
pollster = "0.3"
rand = "0.8"
wgpu = "0.17"
winit = { version = "0.28", default-features = false, features = ["x11"] }
