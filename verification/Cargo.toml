[package]
name = "switchbrew_bevy"
version = "0.1.0"
edition = "2021"
publish = false

[dependencies]
bevy = { version = "=0.19.1", default-features = false, features = ["bevy_window", "std", "keyboard", "gamepad"] }
