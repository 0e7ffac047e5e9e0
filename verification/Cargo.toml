[package]
name = "wgsparkl_step"
version = "0.1.0"
edition = "2021"
publish = false

[dependencies]
async-channel = "=2.5.0"
bytemuck = "=1.25.2"
bevy = { version = "=0.16.1", default-features = false, features = ["bevy_render", "bevy_asset", "bevy_pbr", "bevy_core_pipeline"] }
bevy_rapier3d = "=0.30.0"
wgcore = "=0.2.2"
wgpu = "=24.0.5"
