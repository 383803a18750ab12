[package]
name = "wt_app"
version = "0.1.0"
edition = "2021"
publish = false

[dependencies]
wayland-client = "0.31"
wayland-protocols = { version = "0.31", features = ["client"] }
