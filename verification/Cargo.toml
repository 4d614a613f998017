[package]
name = "bevy_remote"
version = "0.1.0"
edition = "2021"
publish = false

[dependencies]
async-channel = "2"
bevy_app = "0.15"
bevy_ecs = "0.15"
bevy_reflect = "0.15"
serde = { version = "1", features = ["derive"] }
serde_json = "1"
