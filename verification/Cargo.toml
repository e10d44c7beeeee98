[package]
name = "rulkan"
version = "0.1.0"
edition = "2021"
publish = false

[dependencies]
ash = "=0.38.0"
ash-window = "=0.13.0"
env_logger = "*"
glam = "*"
imgui = "=0.12.0"
imgui-rs-vulkan-renderer = { version = "=1.16.0", features = ["vk-mem", "dynamic-rendering"] }
imgui-winit-support = "=0.12.0"
log = "*"
once_cell = "*"
tobj = "*"
vk-mem = "=0.4.0"
winit = "=0.29.15"
