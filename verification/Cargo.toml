[package]
name = "kayak_text"
version = "0.1.0"
edition = "2021"
publish = false

[dependencies]
bevy = { version = "=0.9.1", default-features = false, features = ["bevy_asset", "bevy_render", "bevy_core_pipeline"] }
kayak_font = "=0.1.0"
rustc_apfloat = "0.2"
