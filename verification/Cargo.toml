[package]
name = "hyprsnap"
version = "0.1.0"
edition = "2021"
publish = false

[dependencies]
cairo-rs = "*"
gtk4 = "*"
image = { version = "*", default-features = false, features = ["png"] }
