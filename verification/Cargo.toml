[package]
name = "turtle"
version = "0.1.0"
edition = "2021"
publish = false

[dependencies]
piston_window = "*"
fps_clock = "*"
