[package]
name = "render_host"
version = "0.1.0"
edition = "2021"
publish = false

[dependencies]
cfg-if = "1"
console_error_panic_hook = "0.1"
console_log = "1"
env_logger = "0.10"
js-sys = "0.3"
log = "0.4"
pollster = "0.3"
wasm-bindgen = "0.2"
wasm-bindgen-futures = "0.4"
web-sys = { version = "0.3", features = ["Document", "Element", "EventTarget", "HtmlCanvasElement", "Location", "Response", "Window"] }
wgpu = "0.17"
winit = "0.28"
