[package]
name = "depth_track"
version = "0.1.0"
edition = "2021"
publish = false

[dependencies]
array2d = "0.2"
freenectrs = "*"
glam = "*"
