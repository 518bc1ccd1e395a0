[package]
name = "hala-sdf-baker"
version = "0.1.0"
edition = "2021"
publish = false

[dependencies]
anyhow = "1"
clap = "4"
glam = "*"
imgui = "*"
log = "0.4"
serde = { version = "1", features = ["derive"] }
serde_yaml = "0.9"
winit = "*"
