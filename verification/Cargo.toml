[package]
name = "surface_host"
version = "0.1.0"
edition = "2021"
publish = false

[dependencies]
gl = "0.14"
glutin = "0.28"
skia-safe = { version = "0.50", features = ["gl"] }
