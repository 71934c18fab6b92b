[package]
name = "simon_game"
version = "0.1.0"
edition = "2021"
publish = false

[dependencies]
rand = "0.8"
async-std = "1"
wasm-bindgen = "0.2"
web-sys = { version = "0.3", features = ["Document", "Element", "Window", "Node"] }
