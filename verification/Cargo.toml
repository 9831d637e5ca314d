[package]
name = "opengl_rust"
version = "0.1.0"
edition = "2021"
publish = false

[dependencies]
gl = "0.14"
