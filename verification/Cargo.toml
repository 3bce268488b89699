[package]
name = "globe_viewer"
version = "0.1.0"
edition = "2021"
publish = false

[dependencies]
bevy = { version = "=0.17.3", default-features = false, features = ["bevy_asset", "bevy_color", "bevy_core_pipeline", "bevy_gizmos", "bevy_mesh_picking_backend", "bevy_pbr", "bevy_picking", "bevy_render", "bevy_window", "bevy_winit", "png", "x11"] }
bevy_egui = { version = "=0.37.1", default-features = false, features = ["render"] }
bevy_time = "=0.17.3"

[dev-dependencies]
glam = "=0.30.10"
