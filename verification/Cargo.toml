[package]
name = "ds2d"
version = "0.1.0"
edition = "2021"
publish = false

[dependencies]
gl = "0.14"
glutin = "0.26"
image = "0.23"
rusttype = "0.9"
