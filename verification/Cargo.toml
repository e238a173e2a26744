[package]
name = "frame_engine"
version = "0.1.0"
edition = "2021"
publish = false

[dependencies]
sdl2 = { version = "0.34", features = ["gfx", "mixer"] }
vulkano = "0.23"
vulkano-shaders = "0.23"
