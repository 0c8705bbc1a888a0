[package]
name = "raycast_car"
version = "0.1.0"
edition = "2021"
publish = false

[dependencies]
bevy = { version = "=0.16.1", default-features = false, features = ["std", "bevy_asset", "bevy_scene", "bevy_gltf", "bevy_core_pipeline", "bevy_render", "bevy_pbr", "bevy_gizmos", "bevy_log", "bevy_color"] }
avian3d = { version = "=0.3.1", default-features = false, features = ["3d", "f32", "parry-f32", "default-collider", "debug-plugin", "bevy_scene"] }
