[package]
name = "beehive"
version = "0.1.0"
edition = "2021"
publish = false

[dependencies]
rand = "0.8"
bevy_utils = "0.12"
noise = "0.8"
