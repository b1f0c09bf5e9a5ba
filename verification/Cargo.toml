[package]
name = "image_read"
version = "0.1.0"
edition = "2021"
publish = false

[dependencies]
anyhow = "1"
env_logger = "0.9"
image = "0.24"
log = "0.4"
pollster = "0.2"
wgpu = "0.13"
