[package]
name = "typst_world"
version = "0.1.0"
edition = "2021"
publish = false

[dependencies]
typst = "0.11"
typst-pdf = "0.11"
typst-svg = "0.11"
typst-render = "0.11"
comemo = "0.4"
wasm-bindgen = "0.2"
js-sys = "0.3"
serde-wasm-bindgen = "0.6"

[dev-dependencies]
typst-assets = { version = "0.11", features = ["fonts"] }
