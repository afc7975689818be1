[package]
name = "mandala"
version = "0.1.0"
edition = "2021"
publish = false

[dependencies]
better-panic = "*"
sdl2 = { version = "*", features = ["mixer"] }
