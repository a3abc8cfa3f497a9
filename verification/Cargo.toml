[package]
name = "fractals_rs"
version = "0.1.0"
edition = "2021"
publish = false

[dependencies]
eframe = { version = "0.31", default-features = false, features = ["default_fonts", "glow", "x11"] }
egui = { version = "0.31", default-features = false }
image = { version = "0.25", default-features = false, features = ["png"] }
rayon = "=1.12.0"
rust_decimal = "=1.43.0"
