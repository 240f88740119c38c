[package]
name = "nes_cpu"
version = "0.1.0"
edition = "2021"
publish = false

[dependencies]
console_error_panic_hook = "0.1"
log = "0.4"
wasm-bindgen = "0.2"
