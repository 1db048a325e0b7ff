[package]
name = "mesh_viewer"
version = "0.1.0"
edition = "2021"
publish = false

[dependencies]
alum = "=0.5.5"
three-d = { version = "=0.17.1", features = ["window"] }
eframe = { version = "=0.37.0", default-features = false, features = ["glow", "x11"] }
glam = "=0.34.1"
