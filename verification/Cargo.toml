[package]
name = "bevy_state_curves"
version = "0.1.0"
edition = "2021"
publish = false

[dependencies]
bevy = { version = "0.11", default-features = false }
serde = { version = "1", features = ["derive"] }
