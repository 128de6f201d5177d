[package]
name = "chunk_mesh"
version = "0.1.0"
edition = "2021"
publish = false

[dependencies]
bytemuck = { version = "1", features = ["derive"] }
console_error_panic_hook = "0.1"
console_log = "0.2"
env_logger = "0.9"
fastrand = "1"
glam = { version = "0.20", features = ["bytemuck"] }
log = "0.4"
wasm-bindgen = "0.2"
web-sys = { version = "0.3", features = ["Document", "Element", "Window"] }
wgpu = "0.12"
winit = "0.26"
