[package]
name = "fractal_viewer"
version = "2.1.0"
edition = "2021"
publish = false

[dependencies]
base64 = "=0.22.1"
bincode = "=1.3.3"
url = "=2.5.8"
naga = { version = "=0.20.0", features = ["wgsl-in"] }
bytemuck = { version = "1", features = ["derive"] }
instant = "0.1"
env_logger = { version = "0.11", default-features = false }
