[package]
name = "bevy_ecs_animations"
version = "0.1.0"
edition = "2021"
publish = false

[dependencies]
bevy_app = "=0.19.1"
bevy_ecs = "=0.19.1"
bevy_math = "=0.19.1"
bevy_time = "=0.19.1"
