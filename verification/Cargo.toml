[package]
name = "symbios_robot"
version = "0.1.0"
edition = "2021"
publish = false

[dependencies]
glam = { version = "=0.32.1", features = ["serde"] }
bevy_math = "=0.19.1"
bevy_heavy = "=0.5.0"
symbios = "=1.5.1"
serde = { version = "=1.0.229", features = ["derive"] }
