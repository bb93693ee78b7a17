[package]
name = "sprite_render"
version = "0.1.0"
edition = "2021"
publish = false

[dependencies]
bevy_asset = "0.8"
bevy_core_pipeline = "0.8"
bevy_ecs = "0.8"
bevy_math = "0.8"
bevy_reflect = "0.8"
bevy_render = "0.8"
bevy_transform = "0.8"
bevy_utils = "0.8"
bytemuck = { version = "1.5", features = ["derive"] }
copyless = "0.1.5"
