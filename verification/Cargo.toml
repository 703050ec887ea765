[package]
name = "texture_array"
version = "0.1.0"
edition = "2021"
publish = false

[dependencies]
glow = "*"
three-d-asset = { version = "*", default-features = false }
