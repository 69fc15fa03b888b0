[package]
name = "bevy_ascii_terminal"
version = "0.1.0"
edition = "2021"
publish = false

[dependencies]
bevy = { version = "0.14", default-features = false, features = ["bevy_asset", "bevy_color"] }
bitflags = "2"
sark_grids = "0.5"
