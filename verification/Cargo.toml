[package]
name = "haze-wayland-ssd"
version = "0.1.0"
edition = "2021"
publish = false

[dependencies]
glib = "0.20"
libc = "0.2"
once_cell = "1"
