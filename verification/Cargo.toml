[package]
name = "lottery_core"
version = "0.1.0"
edition = "2021"
publish = false

[dependencies]
seahash = "*"
wasm-bindgen = "*"
js-sys = "*"
console_error_panic_hook = "*"
