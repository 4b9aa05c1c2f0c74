[package]
name = "sphere_runner"
version = "0.1.0"
edition = "2021"
publish = false

[dependencies]
bevy = { version = "=0.7.0", default-features = false, features = ["render", "bevy_winit", "x11"] }
rand = "=0.8.8"
rand_chacha = "=0.3.1"
tracing = "=0.1.37"
tracing-attributes = "=0.1.23"
