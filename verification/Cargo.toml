[package]
name = "scene_registry"
version = "0.1.0"
edition = "2021"
publish = false

[dependencies]
anyhow = "1"
bytemuck = "1"
egui = "*"
pollster = "*"
serde = { version = "1", features = ["derive"] }
slotmap = "1"
toml = "*"
wgpu = "*"
