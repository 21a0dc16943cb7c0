[package]
name = "wgpu_notan_test"
version = "0.1.0"
edition = "2021"
publish = false

[dependencies]
bytemuck = { version = "1", features = ["derive"] }
wgpu = { version = "*", default-features = false, features = ["webgl", "wgsl"] }
log = "0.4"
web-sys = { version = "0.3", features = ["HtmlCanvasElement", "WebGlTexture", "WebGl2RenderingContext", "Window", "Document", "Element"] }
wasm-bindgen = "0.2"
wasm-bindgen-futures = "0.4"
console_error_panic_hook = "0.1"
console_log = "1"
notan_app = "*"
notan_glow = "*"
notan_graphics = "*"
notan_web = "*"
