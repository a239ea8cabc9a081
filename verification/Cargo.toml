[package]
name = "picipaint"
version = "0.1.0"
edition = "2021"
publish = false

[dependencies]
image = { version = "0.25", default-features = false, features = ["png", "jpeg"] }
eframe = { version = "0.29.1", default-features = false, features = ["glow", "default_fonts", "x11"] }
egui_extras = { version = "0.29.1", default-features = false, features = ["image"] }
rfd = { version = "0.15", default-features = false, features = ["xdg-portal", "tokio"] }
