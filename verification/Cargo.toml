[package]
name = "no_graphics_api"
version = "0.1.0"
edition = "2021"
publish = false

[dependencies]
ash = "0.38"
ash-window = "0.13"
harfrust = "*"
vk-mem = "0.5"
winit = "0.30"
