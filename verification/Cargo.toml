[package]
name = "bubble_core"
version = "0.1.0"
edition = "2021"
publish = false

[dependencies]
rand = "0.8"
bevy = { version = "0.15", default-features = false, features = ["bevy_asset", "bevy_color", "bevy_core_pipeline", "bevy_gltf", "bevy_pbr", "bevy_render", "bevy_scene", "bevy_winit", "multi_threaded", "png", "tonemapping_luts", "x11"] }
