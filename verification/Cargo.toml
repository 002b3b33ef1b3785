[package]
name = "rapid_fantasy"
version = "0.1.0"
edition = "2021"
publish = false

[dependencies]
bevy = { version = "=0.7.0", default-features = false, features = ["bevy_winit", "render", "png", "x11"] }
bevy_asset_loader = "=0.11.0"
# The derive macros of bevy 0.7 need syn's `full` feature and do not ask for it. darling
# does, and so switches it on for them; without this line bevy does not build.
darling = "=0.13.4"
queues = "=1.1.0"
rand = "=0.8.8"
