[package]
name = "flycam"
version = "0.1.0"
edition = "2021"
publish = false

[dependencies]
bevy = { version = "0.9", default-features = false, features = ["bevy_asset", "bevy_core_pipeline", "bevy_gltf", "bevy_pbr", "bevy_render", "bevy_text", "bevy_ui", "bevy_winit", "filesystem_watcher", "jpeg", "png", "x11"] }
bevy_egui = { version = "0.19", default-features = false, features = ["default_fonts"] }
