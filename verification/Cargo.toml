[package]
name = "vidi"
version = "0.1.0"
edition = "2021"
publish = false

[dependencies]
serde = { version = "=1.0.229", features = ["derive"] }
serde_json = "=1.0.154"
bevy = { version = "=0.17.3", default-features = false, features = ["std", "bevy_render", "bevy_core_pipeline", "bevy_sprite", "bevy_sprite_render", "bevy_text", "bevy_pbr", "bevy_light", "bevy_window", "bevy_camera", "bevy_mesh", "bevy_asset", "bevy_color", "bevy_image", "default_font"] }
bevy_math = "=0.17.3"
bevy_camera = "=0.17.3"
bevy_mesh = "=0.17.3"
bevy_asset = "=0.17.3"
parking_lot = "=0.12.5"
error-stack = "=0.5.0"
wasm-bindgen = "=0.2.130"
web-sys = { version = "=0.3.107", features = ["console"] }
js-sys = "=0.3.107"
console_error_panic_hook = "=0.1.7"
