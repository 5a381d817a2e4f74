[package]
name = "salva_plugin"
version = "0.1.0"
edition = "2021"
publish = false

[dependencies]
bevy = { version = "*", default-features = false }
bevy_rapier3d = { version = "*", default-features = false, features = ["dim3"] }
salva3d = "*"
nalgebra = "*"
