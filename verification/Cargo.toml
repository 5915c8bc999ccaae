[package]
name = "bevy_mod_fbx"
version = "0.1.0"
edition = "2021"
publish = false

[dependencies]
anyhow = "=1.0.104"
bevy = { version = "=0.15.3", default-features = false, features = ["bevy_asset", "bevy_render", "bevy_pbr", "bevy_scene", "png"] }
fbxcel-dom = "=0.0.10"

[dev-dependencies]
fbxcel = { version = "=0.9.0", features = ["writer"] }
