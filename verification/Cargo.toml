[package]
name = "cobra"
version = "0.1.0"
edition = "2021"
publish = false

[dependencies]
anyhow = "1"
ash = "0.38"
bitflags = "2"
bytemuck = { version = "1", features = ["derive"] }
glam = "*"
spirv-cross2 = "*"
vk-mem = "*"
