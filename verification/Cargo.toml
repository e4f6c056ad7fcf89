[package]
name = "rustyboy"
version = "0.1.0"
edition = "2021"
publish = false

[dependencies]
rand = "0.8"
glium = "0.36"
wasm-bindgen = "0.2"
