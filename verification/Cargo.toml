[package]
name = "wind_waker_shader"
version = "0.1.0"
edition = "2021"
publish = false

[dependencies]
bevy = { version = "0.16", default-features = false, features = ["bevy_pbr", "bevy_scene", "bevy_asset"] }
