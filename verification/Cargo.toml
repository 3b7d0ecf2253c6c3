[package]
name = "egui_spine"
version = "0.1.0"
edition = "2021"
publish = false

[dependencies]
bevy_color = "0.16"
bytemuck = { version = "1", features = ["derive"] }
egui = "0.31"
egui-wgpu = "0.31"
glam = { version = "0.30", features = ["bytemuck"] }
image = { version = "0.25", default-features = false, features = ["png", "jpeg"] }
rusty_spine = "0.8"
