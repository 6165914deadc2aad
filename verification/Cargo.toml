[package]
name = "car_sim"
version = "0.1.0"
edition = "2021"
publish = false

[dependencies]
rapier3d = "=0.36.0"
wasm-bindgen = "*"
js-sys = "*"
