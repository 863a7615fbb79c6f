[package]
name = "pong"
version = "0.1.0"
edition = "2021"
publish = false

[dependencies]
bevy = { version = "0.15", default-features = false, features = ["bevy_state", "bevy_window", "bevy_asset", "bevy_color", "bevy_render", "bevy_core_pipeline", "bevy_sprite", "bevy_text", "bevy_ui"] }
rand = "0.8"
