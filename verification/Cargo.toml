[package]
name = "smithay_color"
version = "0.1.0"
edition = "2021"
publish = false

[dependencies]
wayland-protocols = { version = "=0.32.12", features = ["server", "staging"] }
wayland-server = "0.31"
