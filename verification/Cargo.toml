[package]
name = "star_scene"
version = "0.1.0"
edition = "2021"
publish = false

[dependencies]
cgmath = "0.18"
gl = "0.14"
glutin = "0.29"
time = "0.1"
