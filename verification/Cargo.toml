[package]
name = "image_wizard"
version = "0.1.0"
edition = "2021"
publish = false

[dependencies]
crossterm = "0.27"
image = { version = "0.25", default-features = false, features = ["bmp", "gif", "jpeg", "png", "webp"] }
ratatui = "0.26"
