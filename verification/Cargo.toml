[package]
name = "calculator"
version = "0.1.0"
edition = "2021"
publish = false

[dependencies]
gloo-events = "0.2"
gloo-utils = "0.2"
wasm-bindgen = "0.2"
yew = { version = "0.21", features = ["csr"] }
yew-hooks = "0.3"
