[package]
name = "island_project"
version = "0.1.0"
edition = "2021"
publish = false

[dependencies]
bevy = { version = "=0.6.1", default-features = false, features = ["bevy_winit", "render", "png", "x11"] }
bevy_egui = { version = "=0.11.1", default-features = false }
darling = "=0.13.4"
hashbrown = { version = "=0.11.2", features = ["raw"] }
