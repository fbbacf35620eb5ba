[package]
name = "gameboy"
version = "0.1.0"
edition = "2021"
publish = false

[dependencies]
pixels = "=0.14.0"
winit = { version = "=0.30.13", features = ["rwh_05"] }
