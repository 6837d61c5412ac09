[package]
name = "potato"
version = "0.1.0"
edition = "2021"
publish = false

[dependencies]
ash = "0.37"
cgmath = "0.18"
log = "0.4"
memoffset = "0.6"
num = "0.4"
simple_logger = "1"
winit = { version = "0.28", default-features = false, features = ["x11", "wayland", "wayland-dlopen"] }
