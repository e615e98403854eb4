[package]
name = "falling_sand"
version = "0.1.0"
edition = "2021"
publish = false

[dependencies]
bytemuck = "1"
parking_lot = "0.12"
bevy = { version = "0.10", default-features = false, features = ["bevy_asset", "bevy_core_pipeline", "bevy_render", "bevy_sprite", "bevy_winit", "x11"] }
bevy_egui = { version = "0.20", default-features = false, features = ["default_fonts"] }
bevy_fn_plugin = "0.1"
image = { version = "0.24", default-features = false, features = ["png"] }
winit = { version = "0.28", default-features = false, features = ["x11"] }
