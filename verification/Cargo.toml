[package]
name = "pi_collisions"
version = "0.1.0"
edition = "2021"
publish = false

[dependencies]
olc-pge = "*"
web-audio-api = "*"
