[package]
name = "runner_core"
version = "0.1.0"
edition = "2021"
publish = false

[dependencies]
bevy = { version = "=0.11.3", default-features = false, features = ["bevy_asset"] }
bevy_common_assets = { version = "=0.7.0", default-features = false, features = ["ron"] }
bevy_rapier2d = { version = "=0.22.0", default-features = false, features = ["dim2", "headless"] }
serde = { version = "1", features = ["derive"] }
