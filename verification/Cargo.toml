[package]
name = "roguelike_map"
version = "0.1.0"
edition = "2021"
publish = false

[dependencies]
bevy = { version = "=0.19.1", default-features = false, features = ["std", "bevy_log", "bevy_asset", "bevy_window", "bevy_text", "bevy_sprite", "bevy_render", "bevy_core_pipeline", "default_font"] }
