[package]
name = "nexus"
version = "0.1.0"
edition = "2021"
publish = false

[dependencies]
rapier3d = "*"
nalgebra = "*"
slang-hal = "*"
stensor = "*"
wgpu = "*"
encase = "*"
bytemuck = "*"
