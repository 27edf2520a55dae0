[package]
name = "bevy_mod_check_filter"
version = "0.1.0"
edition = "2021"
publish = false

[dependencies]
bevy_ecs = { version = "0.8", default-features = false }
bevy_ptr = "0.8"
