[package]
name = "render_core"
version = "0.1.0"
edition = "2021"
publish = false

[dependencies]
bytemuck = { version = "=1.25.2", features = ["extern_crate_alloc", "derive"] }
num-format = "=0.4.4"
wgpu = { version = "*", features = ["spirv"] }
winit = "0.30"
winit_input_helper = "*"
nalgebra = { version = "*", features = ["convert-bytemuck"] }
eframe = { version = "*", default-features = false, features = ["wgpu"] }
gltf = "*"
image = { version = "*", default-features = false, features = ["png", "jpeg"] }
pollster = "*"
color-eyre = "*"
env_logger = "*"
log = "*"
