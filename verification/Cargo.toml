[package]
name = "crop_time"
version = "0.1.0"
edition = "2021"
publish = false

[dependencies]
bevy = { version = "=0.6.1", default-features = false, features = ["render", "bevy_winit", "png", "x11"] }
darling_macro = "=0.13.4"
rand = "=0.8.8"
