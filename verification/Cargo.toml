[package]
name = "gpu_bootstrap"
version = "0.1.0"
edition = "2021"
publish = false

[dependencies]
wgpu = { version = "=0.19.4", default-features = false, features = ["wgsl"] }
pollster = "=0.3.0"
tracing = "=0.1.44"
tracing-subscriber = { version = "=0.3.23", default-features = false, features = ["env-filter", "fmt", "std"] }
tracing-wasm = "0.2"
console_error_panic_hook = "0.1"
wasm-bindgen = "=0.2.129"
web-sys = { version = "=0.3.106", features = ["Document", "Window", "Element", "HtmlCanvasElement"] }
