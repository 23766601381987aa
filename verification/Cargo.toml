[package]
name = "quake_globe"
version = "0.1.0"
edition = "2021"
publish = false

[dependencies]
bevy = { version = "0.10", default-features = false, features = ["bevy_pbr", "bevy_core_pipeline", "bevy_render", "bevy_asset", "png"] }
