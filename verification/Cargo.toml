[package]
name = "loot_forge"
version = "0.1.0"
edition = "2021"
publish = false

[dependencies]
rand = "=0.9.5"
kd-tree = "=0.6.2"
typenum = "=1.20.1"
bevy = { version = "=0.18.1", default-features = false, features = ["std", "bevy_state", "bevy_log"] }
bevy_asset_loader = "=0.25.0"
bevy_gauge = "=0.5.1"
