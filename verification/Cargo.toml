[package]
name = "lawn_defense"
version = "0.1.0"
edition = "2021"
publish = false

[dependencies]
bevy = { version = "0.17", default-features = false, features = ["bevy_sprite", "bevy_ui", "bevy_text", "bevy_state", "bevy_window"] }
bevy_rapier2d = "0.32"
ron = "0.11"
serde = { version = "1", features = ["derive"] }
