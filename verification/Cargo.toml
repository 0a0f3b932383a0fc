[package]
name = "gl_raytracer"
version = "0.1.0"
edition = "2021"
publish = false

[dependencies]
auto_ops = "*"
gl = "*"
sdl2 = "*"
