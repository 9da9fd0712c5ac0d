[package]
name = "frame_throttle"
version = "0.1.0"
edition = "2021"
publish = false

[dependencies]
wasm-bindgen = "=0.2.92"
js-sys = "=0.3.69"
web-sys = { version = "=0.3.69", features = ["ImageData"] }
