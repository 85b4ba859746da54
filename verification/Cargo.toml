[package]
name = "igo_app"
version = "0.1.0"
edition = "2021"
publish = false

[dependencies]
bevy = { version = "=0.17.3", default-features = false, features = ["std", "bevy_asset", "bevy_color", "bevy_core_pipeline", "bevy_render", "bevy_sprite", "bevy_sprite_render", "bevy_text", "bevy_ui", "bevy_window"] }
log = "=0.4.34"
rand = "=0.9.5"
serde = { version = "=1.0.229", features = ["derive"] }
