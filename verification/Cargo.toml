[package]
name = "mason"
version = "0.1.0"
edition = "2021"
publish = false

[dependencies]
fyrox = "0.29"
wasm-bindgen = "0.2"
wasm-bindgen-futures = "0.4"
console_error_panic_hook = "0.1"
