[package]
name = "rey_engine"
version = "0.1.0"
edition = "2021"
publish = false

[dependencies]
ash = "0.38"
ash-window = "0.13"
raw-window-handle = "0.6"
winit = "0.29"
nalgebra = "0.33"
rapier3d = "*"
glam = "*"
slotmap = "1"
thiserror = "2"
bytemuck = { version = "1", features = ["derive"] }
anyhow = "1"
tracing = "0.1"
tracing-subscriber = "0.3"
flatbuffers = "*"
