[package]
name = "bevy_hop"
version = "0.1.0"
edition = "2021"
publish = false

[dependencies]
bevy = { version = "0.16", default-features = false, features = ["std", "bevy_state", "bevy_asset", "bevy_scene", "bevy_gltf", "bevy_pbr", "bevy_core_pipeline", "bevy_render", "bevy_window", "bevy_log", "bevy_color", "bevy_ui", "bevy_text"] }
avian3d = { version = "0.3", default-features = false, features = ["3d", "f32", "parry-f32", "default-collider", "collider-from-mesh", "bevy_scene"] }
