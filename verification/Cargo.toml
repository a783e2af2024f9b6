[package]
name = "terrain_streaming"
version = "0.1.0"
edition = "2021"
publish = false

[dependencies]
image = { version = "0.25", default-features = false, features = ["png", "jpeg"] }
tiff = "*"
ureq = "2"
ron = "0.8"
serde = { version = "1", features = ["derive"] }
