[package]
name = "tekuno"
version = "0.1.0"
edition = "2021"
publish = false

[dependencies]
piston_window = "*"
piston2d-sprite = "*"
find_folder = "*"
