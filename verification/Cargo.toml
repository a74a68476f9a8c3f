[package]
name = "hyper_rhi"
version = "0.1.0"
edition = "2021"
publish = false

[dependencies]
ash = "=0.38.0"
ash-window = "=0.13.0"
raw-window-handle = "=0.6.2"
gpu-allocator = { version = "=0.28.0", default-features = false, features = ["std", "vulkan"] }
glfw = "=0.63.0"
image = { version = "=0.25.10", default-features = false, features = ["png"] }
log = "=0.4.34"
tracing = "=0.1.44"
thiserror = "=1.0.69"
color-eyre = "=0.6.5"
winit = "0.30"
windows = { version = "=0.58.0", features = ["Win32_Graphics_Direct3D", "Win32_Graphics_Direct3D12", "Win32_Graphics_Dxgi_Common"] }
