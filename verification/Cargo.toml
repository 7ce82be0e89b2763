[package]
name = "rapier_wasm"
version = "0.1.0"
edition = "2021"
publish = false

[dependencies]
rapier2d = { version = "0.17", features = ["serde-serialize"] }
rapier3d = { version = "0.17", features = ["serde-serialize"] }
nalgebra = "0.32"
serde_json = "1"
wasm-bindgen = "0.2"
wasm-bindgen-futures = "0.4"
js-sys = "0.3"
web-sys = { version = "0.3", features = ["console", "Window", "Performance", "Navigator"] }
log = "0.4"
console_error_panic_hook = "0.1"
wasm-logger = "0.2"
wee_alloc = "0.4"
