[package]
name = "vertix"
version = "0.1.0"
edition = "2021"
publish = false

[dependencies]
slab = "0.4"
glam = "0.23"
bytemuck = { version = "1", features = ["derive"] }
wgpu = "0.15"
winit = "0.28"
bevy_ecs = "0.10"
instant = "0.1"
time = "0.3"
log = "0.4"
env_logger = "0.10"
cfg-if = "1"
