[package]
name = "keep_inside"
version = "0.1.0"
edition = "2021"
publish = false

[dependencies]
bevy = { version = "0.5", default-features = false, features = ["bevy_winit", "render", "bevy_wgpu", "bevy_gilrs", "x11"] }
bevy_easings = "0.4"
bevy_prototype_lyon = "0.3.1"
