[package]
name = "shader_playground"
version = "0.1.0"
edition = "2021"
publish = false

[dependencies]
bevy = { version = "0.9", default-features = false, features = ["bevy_asset", "bevy_render", "bevy_pbr", "bevy_core_pipeline"] }
bytemuck = { version = "1", features = ["derive"] }
