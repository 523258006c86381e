[package]
name = "blappy_birb"
version = "0.1.0"
edition = "2021"
publish = false

[dependencies]
bevy = { version = "0.15", default-features = false, features = ["bevy_asset", "bevy_state"] }
bevy_asset_loader = { version = "0.22", default-features = false }
bevy_rand = { version = "0.9", features = ["wyrand"] }
bevy_rapier2d = { version = "0.28", default-features = false, features = ["dim2"] }
rand = "0.8"
