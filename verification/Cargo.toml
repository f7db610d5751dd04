[package]
name = "hover_pill"
version = "0.1.0"
edition = "2021"
publish = false

[dependencies]
bevy = { version = "=0.10.1", default-features = false, features = ["bevy_asset", "bevy_winit", "bevy_render", "bevy_core_pipeline", "bevy_pbr", "bevy_ui", "bevy_text", "x11", "filesystem_watcher"] }
bevy_rapier3d = "=0.21.0"
bevy_egui = { version = "=0.20.3", default-features = false, features = ["default_fonts"] }
bevy_atmosphere = "=0.6.0"
bevy_atmosphere_macros = "=0.2.0"
serde = { version = "=1.0.229", features = ["derive"] }
serde_json = "=1.0.154"
