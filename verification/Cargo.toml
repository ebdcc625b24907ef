[package]
name = "bevy_game"
version = "0.1.0"
edition = "2021"
publish = false

[dependencies]
rand = "=0.10.3"
bevy_rand = { version = "=0.15.2", default-features = false, features = ["wyrand"] }
