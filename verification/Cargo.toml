[package]
name = "game"
version = "0.1.0"
edition = "2021"
publish = false

[dependencies]
fnv = "1"
fastrand = "2"
unicode-segmentation = "1"
parking_lot = "0.12"
console_error_panic_hook = "0.1"
wasm-bindgen = "0.2"
