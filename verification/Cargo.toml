[package]
name = "nut_catcher"
version = "0.1.0"
edition = "2021"
publish = false

[dependencies]
rand = "=0.8.8"
wgpu = "=0.16.3"
winit = "=0.28.7"
glyphon = "=0.3.0"
image = { version = "=0.24.9", default-features = false, features = ["png"] }
bytemuck = { version = "=1.25.2", features = ["derive"] }
pollster = "=0.3.0"
env_logger = "=0.10.2"
console_error_panic_hook = "=0.1.7"
console_log = "=1.1.0"
wasm-bindgen-futures = "0.4"
web-sys = { version = "0.3", features = ["Document", "Element", "HtmlElement", "Node", "Window"] }
