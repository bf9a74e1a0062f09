[package]
name = "editor_core"
version = "0.1.0"
edition = "2021"
publish = false

[dependencies]
bevy = { version = "=0.15.3", default-features = false, features = ["bevy_asset", "bevy_color", "bevy_core_pipeline", "bevy_gizmos", "bevy_mesh_picking_backend", "bevy_pbr", "bevy_picking", "bevy_render", "bevy_sprite", "bevy_window", "png", "webgl2"] }
bevy_mesh = "=0.15.3"
bevy_mod_outline = "=0.9.2"
bevy_picking = "=0.15.3"
enumset = "=1.1.15"
gltf = "=1.4.1"
image = { version = "=0.25.10", default-features = false, features = ["jpeg", "png"] }
js-sys = "=0.3.106"
once_cell = "=1.21.4"
transform-gizmo-bevy = "=0.5.0"
wasm-bindgen = "=0.2.129"
