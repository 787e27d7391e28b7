[package]
name = "lmage"
version = "0.1.0"
edition = "2021"
publish = false

[dependencies]
wgpu = "23"
winit = "0.30"
futures-executor = "0.3"
tracing = "0.1"
tracing-subscriber = { version = "0.3", features = ["env-filter"] }
tracing-web = "0.1"
console_error_panic_hook = "0.1"
wasm-bindgen = "0.2"
wasm-bindgen-futures = "0.4"
web-sys = { version = "0.3", features = ["Document", "Element", "HtmlCanvasElement", "Node", "Window"] }
