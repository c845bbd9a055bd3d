[package]
name = "platformer_core"
version = "0.1.0"
edition = "2021"
publish = false

[dependencies]
bevy = { version = "=0.13.2", default-features = false }
bevy_rapier2d = { version = "=0.25.0", default-features = false, features = ["dim2", "headless"] }
