[package]
name = "fps"
version = "0.1.0"
edition = "2021"
publish = false

[dependencies]
bevy = { version = "0.16", default-features = false }
avian3d = { version = "0.3", default-features = false, features = ["3d", "f32", "parry-f32", "default-collider"] }
