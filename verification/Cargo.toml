[package]
name = "shader_compiler"
version = "0.1.0"
edition = "2021"
publish = false

[dependencies]
glow = "*"
sdl2 = "*"
