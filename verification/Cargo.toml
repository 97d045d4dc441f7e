[package]
name = "vulkano_shader_derive"
version = "0.1.0"
edition = "2021"
publish = false

[dependencies]
glsl-to-spirv = "0.1"
lazy_static = "1"
regex = "1"
syn = "0.11"
vulkano-shaders = "0.10"
